//! Settings of a benchmark run.

use crate::text::{str_eq, views};
use vstd::prelude::*;

verus! {

/// Where and how the results of a benchmark are written.
#[derive(Debug, Clone)]
pub struct ExportConfig {
    /// The formats to write, of `csv`, `json` and `html`.
    pub formats: Vec<String>,
    pub output_directory: String,
    pub include_raw_data: bool,
    pub include_charts: bool,
}

impl ExportConfig {
    /// The settings of a benchmark that gives none: all three formats, with
    /// raw data and charts, written to `benchmark_results`.
    pub fn standard() -> (config: ExportConfig)
        ensures
            views(config.formats@) == seq!["json"@, "csv"@, "html"@],
            config.output_directory@ == "benchmark_results"@,
            config.include_raw_data,
            config.include_charts,
    {
        let mut formats: Vec<String> = Vec::new();
        formats.push("json".to_owned());
        formats.push("csv".to_owned());
        formats.push("html".to_owned());
        assert(views(formats@) =~= seq!["json"@, "csv"@, "html"@]);
        ExportConfig {
            formats,
            output_directory: "benchmark_results".to_owned(),
            include_raw_data: true,
            include_charts: true,
        }
    }

    /// Whether the results are to be written in `format`.
    pub fn includes(&self, format: &str) -> (r: bool)
        ensures
            r == views(self.formats@).contains(format@),
    {
        let mut i: usize = 0;
        while i < self.formats.len()
            invariant
                i <= self.formats.len(),
                forall|k: int| 0 <= k < i ==> views(self.formats@)[k] != format@,
            decreases self.formats.len() - i,
        {
            if str_eq(self.formats[i].as_str(), format) {
                assert(views(self.formats@)[i as int] == format@);
                return true;
            }
            i = i + 1;
        }
        false
    }
}

} // verus!
