//! The documents that the server hands out as they are.

use crate::text::{replace, replaced};
use vstd::prelude::*;

verus! {

/// The command line reference, with `{binary_path}` where the path of the
/// executable goes.
pub const CLI_REFERENCE_TEMPLATE: &'static str = r#"# AST-Grep CLI Reference

## Binary Information
- **Bundled Binary Path**: `{binary_path}`
- **Version**: 0.38.7
- **Auto-download**: Binary is automatically downloaded if not found

## Core Commands
- `ast-grep run` - One-time search/rewrite (default command)
- `ast-grep scan` - Rule-based code checking
- `ast-grep test` - Rule testing framework
- `ast-grep new` - Project scaffolding
- `ast-grep lsp` - Language server

## Basic Usage
```bash
# Search for patterns
{binary_path} run --pattern 'console.log($$$)' --lang javascript src/

# Replace patterns
{binary_path} run --pattern 'var $VAR = $VALUE' --rewrite 'const $VAR = $VALUE' --lang javascript src/

# Scan with rules
{binary_path} scan --rule rule.yml src/

# Interactive mode
{binary_path} run --pattern 'old()' --rewrite 'new()' --interactive src/

# Get help
{binary_path} --help
{binary_path} run --help
{binary_path} scan --help
```

## Advanced Options
```bash
# JSON output
{binary_path} scan --rule rule.yml --json src/

# Dry run (preview changes)
{binary_path} run --pattern 'old' --rewrite 'new' --dry-run src/

# Specify language explicitly
{binary_path} run --pattern '$VAR = $VALUE' --lang typescript src/

# Multiple files/directories
{binary_path} scan --rule rule.yml src/ tests/ lib/

# Ignore patterns
{binary_path} run --pattern 'debug($$$)' --ignore '**/node_modules/**' src/
```

## Rule Format
```yaml
id: rule-name
language: javascript
message: "Description"
severity: warning
rule:
  pattern: "console.log($$$)"
  # OR kind: call_expression
  # OR relational rules (inside, has, follows, precedes)
fix: "console.debug($$$)"  # Optional
```

## File Extensions by Language
- JavaScript: `.js`, `.jsx`, `.mjs`
- TypeScript: `.ts`, `.tsx`
- Python: `.py`
- Rust: `.rs`
- Java: `.java`
- Go: `.go`
- C/C++: `.c`, `.cpp`, `.h`, `.hpp`

## Configuration
ast-grep uses `sgconfig.yml` for project configuration:
```yaml
ruleDirs: ["rules"]
testConfigs:
  - testDir: tests
    snapshots: __snapshots__
```

## Resources
- Official Documentation: https://ast-grep.github.io/
- CLI Reference: https://ast-grep.github.io/reference/cli.html
- Rule Reference: https://ast-grep.github.io/reference/rule.html
- Pattern Syntax: https://ast-grep.github.io/reference/pattern.html
"#;

/// The placeholder of the command line reference.
pub const BINARY_PATH_PLACEHOLDER: &'static str = "{binary_path}";

/// Examples of rule configurations for common uses.
pub const RULE_EXAMPLES: &'static str = r#"# Common Rule Examples

## Simple Pattern Rule
```yaml
id: find-console-log
language: javascript
message: "Console log found"
severity: info
rule:
  pattern: "console.log($$$)"
fix: "console.debug($$$)"
```

## Kind-Based Rule
```yaml
id: find-functions
language: javascript
message: "Function declaration"
rule:
  kind: function_declaration
```

## Variable Assignment
```yaml
id: modernize-var
language: javascript
message: "Use const instead of var"
rule:
  pattern: "var $VAR = $VALUE"
fix: "const $VAR = $VALUE"
```

## Error Handling
```yaml
id: find-try-catch
language: javascript
rule:
  pattern: "try { $$$ } catch ($ERROR) { $$$ }"
```
"#;

/// Examples of relational rules for moving between scopes.
pub const RELATIONAL_PATTERNS: &'static str = r#"# Relational Pattern Examples

## Inside Pattern
```yaml
# Find console.log inside functions
id: console-in-function
language: javascript
rule:
  all:
    - pattern: "console.log($$$)"
    - inside:
        pattern: "function $NAME($$$) { $$$ }"
```

## Has Pattern
```yaml
# Find functions that contain await
id: async-functions
language: javascript
rule:
  all:
    - pattern: "function $NAME($$$) { $$$ }"
    - has:
        pattern: "await $EXPR"
```

## Excluding Nested Scopes
```yaml
# Find patterns at exact level (not nested)
id: exact-level
language: javascript
rule:
  all:
    - pattern: "console.log($$$)"
    - inside:
        pattern: "function $NAME($$$) { $$$ }"
    - not:
        inside:
          all:
            - pattern: "function $INNER($$$) { $$$ }"
            - inside:
                pattern: "function $NAME($$$) { $$$ }"
```

## Multiple Boundaries
```yaml
# Find patterns within multiple scopes
id: multi-boundary
language: javascript
rule:
  all:
    - pattern: "$VAR = $VALUE"
    - inside:
        pattern: "class $CLASS { $$$ }"
    - inside:
        pattern: "function $METHOD($$$) { $$$ }"
```
"#;

/// The kinds of syntax nodes by language, for rules that match by kind.
pub const NODE_KINDS: &'static str = r#"# Tree-sitter Node Kinds by Language

## JavaScript/TypeScript
- `function_declaration`
- `arrow_function`
- `call_expression`
- `variable_declaration`
- `class_declaration`
- `method_definition`
- `if_statement`
- `for_statement`
- `while_statement`
- `try_statement`
- `catch_clause`
- `identifier`
- `string`
- `number`

## Rust
- `function_item`
- `impl_item`
- `struct_item`
- `enum_item`
- `call_expression`
- `match_expression`
- `if_expression`
- `loop_expression`
- `for_expression`
- `while_expression`
- `let_declaration`
- `identifier`

## Python
- `function_definition`
- `class_definition`
- `call`
- `assignment`
- `if_statement`
- `for_statement`
- `while_statement`
- `try_statement`
- `except_clause`
- `identifier`

## To discover all node kinds for a language:
```bash
ast-grep run --pattern '$ANY' --lang <language> <file> --debug-query
```

Or use the `generate_ast` MCP tool with sample code.
"#;

/// The cheat sheet of atomic, relational and composite rules.
pub const CHEATSHEET_RULES: &'static str = r#"# Rule Cheat Sheet

This cheat sheet provides a concise overview of ast-grep's rule object configuration, covering Atomic, Relational, and Composite rules, along with notes on Utility rules.

## ⚛️ Atomic Rules

These are your precision tools, matching individual AST nodes based on their inherent properties.

### Pattern Matching
```yaml
pattern: console.log($ARG)
```
🧩 Match a node by code structure. e.g. `console.log` call with a single `$ARG`

### Pattern with Context
```yaml
pattern:
  context: '{ key: value }'
  selector: pair
```
🧩 To parse ambiguous patterns, use `context` and specify `selector` AST to search.

### Kind Matching
```yaml
kind: if_statement
```
🏷️ Match an AST node by its `kind` name

### Regex Matching
```yaml
regex: ^regex.+$
```
🔍 Matches node text content against a Rust regular expression

### Positional Matching
```yaml
nthChild: 1
```
🔢 Find a node by its **1-based index** among its _named siblings_

### Advanced Positional
```yaml
nthChild:
  position: 2
  reverse: true
  ofRule: { kind: argument_list }
```
🔢 Advanced positional control: `position`, `reverse` (count from end), or filter siblings using `ofRule`

### Range Matching
```yaml
range:
  start: { line: 0, column: 0 }
  end: { line: 0, column: 13 }
```
🎯 Matches a node based on its character span: 0-based, inclusive start, exclusive end

## 🔗 Relational Rules

These powerful rules define how nodes relate to each other structurally. Think of them as your AST GPS!

### Inside
```yaml
inside:
  kind: function_declaration
```
🏠 Target node must appear **inside** its _parent/ancestor_ node matching the sub-rule

### Has
```yaml
has:
  kind: method_definition
```
🌳 Target node must **have** a _child/descendant_ node matching the sub-rule

### Has with Field
```yaml
has:
  kind: statement_block
  field: body
```
🌳 `field` makes `has`/`inside` match nodes by their semantic role

### Precedes
```yaml
precedes:
  pattern: function $FUNC() { $$ }
```
◀️ Target node must appear _before_ another node matching the sub-rule

### Follows
```yaml
follows:
  pattern: let x = 10;
```
▶️ Target node must appear _after_ another node matching the sub-rule

### StopBy
```yaml
inside:
  kind: function_declaration
  stopBy: end
```
🏠 `stopBy` makes relational rules search all the way to the end, not just immediate neighbors

## 🧠 Composite Rules

Combine multiple rules using Boolean logic. Crucially, these operations apply to a single target node!

### All
```yaml
all:
  - pattern: const $VAR = $VALUE
  - has: { kind: string_literal }
```
✅ Node must satisfy **ALL** the rules in the list

### Any
```yaml
any:
  - pattern: let $X = $Y
  - pattern: const $X = $Y
```
🧡 Node must satisfy **AT LEAST ONE** of the rules in the list

### Not
```yaml
not:
  pattern: console.log($$)
```
🚫 Node must **NOT** satisfy the specified sub-rule

### Matches
```yaml
matches: is-function-call
```
🔄 Matches the node if that utility rule matches it. Your gateway to modularity!

## 📦 Utility Rules

Define reusable rule definitions to cut down on duplication and build complex, maintainable rule sets.

### Local Utils
```yaml
rules:
  - id: find-my-pattern
    rule:
      matches: my-local-check
utils:
  my-local-check:
    kind: identifier
    regex: '^my'
```
🏡 Defined within the `utils` field of your current config file. Only accessible within that file.

### Global Utils
```yaml
# In utils/my-global-check.yml
id: my-global-check
language: javascript
rule:
  kind: variable_declarator
  has:
    kind: number_literal
```
🌍 Defined in separate YAML files in global `utilsDirs` folders, accessible across your entire project.
"#;

/// The cheat sheet of the YAML configuration of a rule.
pub const CHEATSHEET_YAML: &'static str = r#"# YAML Configuration Cheat Sheet

This cheat sheet provides a concise overview of ast-grep's linter rule YAML configuration.

## ℹ️ Basic Information

Core details that identify and define your rule and miscellaneous keys for documentation and custom data.

### Rule ID
```yaml
id: no-console-log
```
🆔 A unique, descriptive identifier for the rule.

### Language
```yaml
language: JavaScript
```
🌐 The programming language the rule applies to.

### Documentation URL
```yaml
url: 'https://doc.link/'
```
🔗 A URL to the rule's documentation.

### Metadata
```yaml
metadata: { author: 'John Doe' }
```
📓 A dictionary for custom data related to the rule.

## 🔍 Finding Code

Keys for specifying what code to search for.

### Rule
```yaml
rule:
  pattern: 'console.log($$$ARGS)'
```
🎯 The core `rule` to find matching AST nodes.

### Constraints
```yaml
constraints:
  ARG: { kind: 'string' }
```
⚙️ Additional `constraints` rules to filter meta-variable matches.

### Utils
```yaml
utils:
  is-react:
    kind: function_declaration
    has: { kind: jsx_element }
```
🛠️ A dictionary of reusable utility rules. Use them in `matches` to modularize your rules.

## 🛠️ Patching Code

Keys for defining how to automatically fix the found code.

### Transform (Object Form)
```yaml
transform:
  NEW_VAR:
    substring: {endChar: 1, source: $V}
```
🎩 `transform` meta-variables before they are used in `fix`.

### Transform (String Form)
```yaml
transform:
  NEW_VAR: substring($V, endChar=1)
```
🎩 `transform` also accepts string form.

### Fix (Simple)
```yaml
fix: "logger.log($$$ARGS)"
```
🔧 A `fix` string to auto-fix the matched code.

### Fix (Object Form)
```yaml
fix:
  template: "logger.log($$$ARGS)"
  expandEnd: rule
```
🔧 Fix also accepts `FixConfig` object.

### Rewriters
```yaml
rewriters:
- id: remove-quotes
  rule: { pattern: "'$A'" }
  fix: "$A"
```
✍️ A list of `rewriters` for complex transformations.

## 🚦 Linting

Keys for configuring the messages and severity of reported issues.

### Severity
```yaml
severity: warning
```
⚠️ The `severity` level of the linting message.

### Message
```yaml
message: "Avoid using $MATCH in production."
```
💬 A concise `message` explaining the rule. Matched $VAR can be used.

### Note
```yaml
note:
  Use a _logger_ instead of `console`
```
📌 More detailed `note`. It supports Markdown format.

### Labels
```yaml
labels:
  ARG:
    style: 'primary'
    message: 'The argument to log'
```
🎨 Customized `labels` for highlighting parts of the matched code.

### File Patterns
```yaml
files: ['src/**/*.js']
```
✅ Glob `files` patterns to include files for the rule.

### Ignore Patterns
```yaml
ignores: ['test/**/*.js']
```
❌ Glob patterns to exclude files from the rule.
"#;

/// Common patterns ordered by programming language.
pub const EXAMPLES_BY_LANGUAGE: &'static str = r#"# Examples by Language

Quick reference of common ast-grep patterns organized by programming language.

## JavaScript/TypeScript

### Variable Declarations
```yaml
# Find var declarations
rule:
  pattern: "var $VAR = $VALUE"

# Find all variable declarations (var, let, const)
rule:
  any:
    - pattern: "var $VAR = $VALUE"
    - pattern: "let $VAR = $VALUE"
    - pattern: "const $VAR = $VALUE"
```

### Function Patterns
```yaml
# Function declarations
rule:
  pattern: "function $NAME($PARAMS) { $BODY }"

# Arrow functions
rule:
  pattern: "($PARAMS) => $BODY"

# Method calls
rule:
  pattern: "$OBJECT.$METHOD($ARGS)"
```

### Common Patterns
```yaml
# Console statements
rule:
  pattern: "console.$METHOD($ARGS)"

# Async/await
rule:
  pattern: "await $EXPR"

# Import statements
rule:
  pattern: "import $ITEMS from '$MODULE'"
```

## Python

### Function Definitions
```yaml
# Function definitions
rule:
  pattern: "def $NAME($PARAMS): $BODY"

# Class definitions
rule:
  pattern: "class $NAME: $BODY"

# Method definitions
rule:
  pattern: "def $NAME(self, $PARAMS): $BODY"
```

### Common Patterns
```yaml
# Print statements
rule:
  pattern: "print($ARGS)"

# If statements
rule:
  pattern: "if $CONDITION: $BODY"

# For loops
rule:
  pattern: "for $VAR in $ITER: $BODY"
```

## Rust

### Function Items
```yaml
# Function definitions
rule:
  pattern: "fn $NAME($PARAMS) -> $RET { $BODY }"

# Public functions
rule:
  pattern: "pub fn $NAME($PARAMS) -> $RET { $BODY }"

# Method definitions
rule:
  pattern: "impl $TYPE { fn $NAME($PARAMS) -> $RET { $BODY } }"
```

### Error Handling
```yaml
# Match expressions
rule:
  pattern: "match $EXPR { $ARMS }"

# Result handling
rule:
  pattern: "$EXPR?"

# Unwrap calls
rule:
  pattern: "$EXPR.unwrap()"
```

## Java

### Class Elements
```yaml
# Class declarations
rule:
  pattern: "class $NAME { $BODY }"

# Method declarations
rule:
  pattern: "public $RET $NAME($PARAMS) { $BODY }"

# Field declarations
rule:
  pattern: "private $TYPE $NAME;"
```

### Common Patterns
```yaml
# System.out.println
rule:
  pattern: "System.out.println($ARGS)"

# Try-catch blocks
rule:
  pattern: "try { $BODY } catch ($EX) { $HANDLER }"
```

## Go

### Function Definitions
```yaml
# Function declarations
rule:
  pattern: "func $NAME($PARAMS) $RET { $BODY }"

# Method declarations
rule:
  pattern: "func ($RECV) $NAME($PARAMS) $RET { $BODY }"
```

### Error Handling
```yaml
# Error checking
rule:
  pattern: "if err != nil { $BODY }"

# Function calls with error
rule:
  pattern: "$VAR, err := $CALL"
```

## Usage Tips

1. Use `$$$` for multiple items: `console.log($$$)` matches any number of arguments
2. Use `$$` for statement sequences: `{ $$ }` matches any block content
3. Combine with constraints to be more specific:
   ```yaml
   rule:
     pattern: "$VAR = $VALUE"
   constraints:
     VAR: { regex: "^[A-Z_]+$" }  # Only CONSTANTS
   ```
"#;

/// The reference of the pattern syntax.
pub const PATTERN_SYNTAX: &'static str = r#"# Pattern Syntax Reference

Concise guide to ast-grep pattern syntax for quick reference.

## Meta-variables

### Single Node Variables
- `$VAR` - Matches exactly one AST node
- `$_` - Anonymous variable (matches one node, don't capture)

### Multi-Node Variables  
- `$$$VAR` - Matches zero or more nodes in sequence
- `$$$` - Anonymous multi-match

### Statement Variables
- `$$VAR` - Matches zero or more statements
- `$$` - Anonymous statement sequence

## Basic Patterns

### Exact Match
```yaml
pattern: "console.log('hello')"  # Matches exactly this code
```

### Variable Capture
```yaml
pattern: "console.log($MSG)"     # Captures the argument as $MSG
```

### Multiple Arguments
```yaml
pattern: "console.log($$$ARGS)"  # Captures all arguments
```

### Method Calls
```yaml
pattern: "$OBJ.$METHOD($$$)"     # Any method call on any object
```

## Pattern Types

### Expression Patterns
- `$VAR = $VALUE` - Assignment
- `$FUNC($$$)` - Function call
- `$OBJ.$PROP` - Property access
- `$A + $B` - Binary operation

### Statement Patterns
- `if ($COND) { $$ }` - If statement
- `for ($INIT; $COND; $UPDATE) { $$ }` - For loop
- `try { $$ } catch ($E) { $$ }` - Try-catch

### Declaration Patterns
- `function $NAME($$$) { $$ }` - Function declaration
- `class $NAME { $$ }` - Class declaration
- `const $VAR = $VALUE` - Variable declaration

## Advanced Features

### Context Patterns
When a pattern is ambiguous, use context:
```yaml
pattern:
  context: "class Foo { bar() }"
  selector: method_definition
```

### Whitespace Handling
Patterns ignore most whitespace differences:
```yaml
pattern: "if($COND){$$}"  # Matches "if (cond) { ... }"
```

### Comments
Patterns typically ignore comments:
```yaml
pattern: "$VAR = $VALUE"  # Matches with or without comments
```

## Language-Specific Notes

### JavaScript/TypeScript
- Use `function` for function declarations
- Use `=>` for arrow functions
- Template literals: `` `${}` ``

### Python
- Indentation matters in patterns
- Use `:` for statement endings
- `def` for functions, `class` for classes

### Rust
- Use `->` for return types
- Match expressions: `match $EXPR { $$ }`
- Lifetime annotations: `&'$LT $TYPE`

### Java
- Access modifiers: `public`, `private`, etc.
- Generics: `List<$TYPE>`
- Annotations: `@$ANNOTATION`

## Common Mistakes

❌ **Don't** use regex in patterns:
```yaml
pattern: "console\.log\(.*\)"  # This won't work
```

✅ **Do** use meta-variables:
```yaml
pattern: "console.log($$$)"    # This works
```

❌ **Don't** be too specific with whitespace:
```yaml
pattern: "if ( $COND ) { $$ }"  # Too restrictive
```

✅ **Do** let ast-grep handle whitespace:
```yaml
pattern: "if ($COND) { $$ }"    # More flexible
```

## Quick Reference

| Pattern | Matches | Example |
|---------|---------|---------|
| `$VAR` | Single node | Variable, literal, expression |
| `$$$` | Multiple nodes | Function arguments, array elements |
| `$$` | Statements | Block contents, statement sequences |
| `$_.method()` | Anonymous match | Any object's method call |
| `$$$_` | Anonymous multi | Any number of items (don't capture) |
"#;

/// The guide to composing rules.
pub const RULE_COMPOSITION: &'static str = r#"# Rule Composition Guide

Learn to build complex ast-grep rules by combining simple patterns.

## Building Blocks

### 1. Atomic Rules
Start with simple, single-purpose patterns:
```yaml
# Find console.log calls
basic_console:
  pattern: "console.log($$$)"

# Find function declarations  
basic_function:
  pattern: "function $NAME($$$) { $$ }"
```

### 2. Relational Rules
Add context using relationships:
```yaml
# Console.log inside functions
console_in_function:
  all:
    - pattern: "console.log($$$)"
    - inside:
        pattern: "function $NAME($$$) { $$ }"
```

### 3. Composite Rules
Combine multiple conditions:
```yaml
# Complex condition
complex_rule:
  all:
    - pattern: "$VAR = $VALUE"
    - inside: { kind: function_declaration }
    - not: { inside: { kind: arrow_function } }
```

## Composition Patterns

### AND Logic (all)
All conditions must match:
```yaml
rule:
  all:
    - pattern: "console.log($MSG)"
    - inside: { pattern: "function $NAME($$$) { $$ }" }
    - not: { pattern: "console.log('debug')" }
# Finds console.log in functions, but not debug messages
```

### OR Logic (any)
At least one condition must match:
```yaml
rule:
  any:
    - pattern: "console.log($$$)"
    - pattern: "console.error($$$)"
    - pattern: "console.warn($$$)"
# Finds any console method call
```

### NOT Logic (not)
Exclude specific patterns:
```yaml
rule:
  all:
    - pattern: "$FUNC($$$)"
    - not: { pattern: "console.$METHOD($$$)" }
# Function calls except console methods
```

## Common Composition Recipes

### 1. Scope-Limited Search
Find patterns within specific scopes:
```yaml
# Variables declared in constructors
rule:
  all:
    - pattern: "this.$PROP = $VALUE"
    - inside:
        pattern: "constructor($$$) { $$ }"
```

### 2. Multi-Level Nesting
Navigate through multiple scope levels:
```yaml
# Methods that use console in classes
rule:
  all:
    - pattern: "console.log($$$)"
    - inside: { kind: method_definition }
    - inside: { kind: class_declaration }
```

### 3. Excluding Nested Scopes
Find patterns at exact scope level:
```yaml
# Direct class methods (not nested functions)
rule:
  all:
    - pattern: "function $NAME($$$) { $$ }"
    - inside: { kind: class_declaration }
    - not:
        inside:
          all:
            - kind: function_declaration
            - inside: { kind: class_declaration }
```

### 4. Conditional Transformations
Transform only when conditions are met:
```yaml
# Convert var to const only in functions
rule:
  all:
    - pattern: "var $VAR = $VALUE"
    - inside: { kind: function_declaration }
    - has: { pattern: "$VAR" }  # Variable is used
fix: "const $VAR = $VALUE"
```

## Advanced Compositions

### Utility Rules for Modularity
Break complex rules into reusable parts:
```yaml
utils:
  is_react_component:
    any:
      - has: { pattern: "return <$TAG" }
      - has: { pattern: "React.createElement" }
  
  is_async_function:
    any:
      - pattern: "async function $NAME($$$) { $$ }"
      - pattern: "async ($$$) => $BODY"

rules:
  - id: no-console-in-react-async
    rule:
      all:
        - pattern: "console.log($$$)"
        - inside: { matches: is_react_component }
        - inside: { matches: is_async_function }
```

### Constraint-Based Refinement
Use constraints to refine matches:
```yaml
rule:
  pattern: "$OBJ.$METHOD($$$)"
constraints:
  OBJ: { regex: "^[A-Z]" }      # Capitalized objects only
  METHOD: { regex: "^get" }     # Getter methods only
```

### Sequential Patterns
Find patterns that follow specific sequences:
```yaml
# Variable declared then immediately used
rule:
  all:
    - pattern: "const $VAR = $VALUE"
    - follows:
        pattern: "$VAR.$METHOD($$$)"
```

## Building Strategy

### 1. Start Simple
Begin with a basic pattern:
```yaml
pattern: "console.log($$$)"
```

### 2. Add Context
Specify where it should appear:
```yaml
all:
  - pattern: "console.log($$$)"
  - inside: { kind: function_declaration }
```

### 3. Refine with Constraints
Add more specific conditions:
```yaml
all:
  - pattern: "console.log($MSG)"
  - inside: { kind: function_declaration }
  - not: { pattern: "console.log('TODO')" }
```

### 4. Test and Iterate
Run the rule and refine based on results:
```bash
ast-grep scan --rule my-rule.yml test-files/
```

## Tips for Effective Composition

1. **Start broad, then narrow**: Begin with simple patterns and add restrictions
2. **Use utils for reusability**: Extract common patterns into utility rules
3. **Test incrementally**: Verify each composition step works correctly
4. **Consider performance**: Complex nested rules can be slow on large codebases
5. **Document your logic**: Use clear rule IDs and comments

## Example: Complete Rule Development

```yaml
# Goal: Find TODO comments in production code (not test files)

# Step 1: Basic pattern
pattern: "// TODO: $MESSAGE"

# Step 2: Add exclusions
all:
  - pattern: "// TODO: $MESSAGE"
  - not: { inside: { pattern: "describe($$$)" } }  # Not in tests

# Step 3: Add file constraints
all:
  - pattern: "// TODO: $MESSAGE"  
  - not: { inside: { pattern: "describe($$$)" } }
files: ["src/**/*.js"]
ignores: ["**/*.test.js", "**/*.spec.js"]

# Step 4: Add metadata
id: no-todo-in-production
message: "TODO comments should not remain in production code"
severity: warning
note: |
  Consider:
  - Creating a proper issue tracker entry
  - Implementing the feature
  - Removing the comment if no longer relevant
```
"#;

/// The guide to all resources of the server and how to use them.
pub const DISCOVERY_GUIDE: &'static str = r#"# 🔍 AST-Grep MCP Resource Discovery Guide

Welcome! This guide helps you navigate all available resources in the AST-Grep MCP server.

## 🚀 Quick Start Resources

**For beginners, start with these:**
- `ast-grep://languages` - See all supported programming languages
- `ast-grep://examples/javascript` - JavaScript/TypeScript examples  
- `ast-grep://examples/python` - Python examples
- `ast-grep://rule-examples` - Basic rule configurations
- `ast-grep://cheatsheet/rules` - Comprehensive rule reference

## 📚 Core Documentation

### Essential References
- `ast-grep://cli-reference` - Complete CLI documentation
- `ast-grep://cheatsheet/rules` - Rule syntax cheat sheet
- `ast-grep://cheatsheet/yaml` - YAML configuration reference
- `ast-grep://binary-path` - Get the ast-grep executable path

### Pattern References  
- `ast-grep://relational-patterns` - Inside/has/follows examples
- `ast-grep://node-kinds` - Tree-sitter node types by language

## 🎯 Language-Specific Examples

### Direct Access (Most Popular)
- `ast-grep://examples/javascript` - JavaScript/TypeScript
- `ast-grep://examples/python` - Python  
- `ast-grep://examples/rust` - Rust
- `ast-grep://examples/java` - Java
- `ast-grep://examples/go` - Go

### Any Language
- `ast-grep://examples/{language}` - Replace {language} with: cpp, csharp, ruby, php, etc.

## 🔧 Dynamic Resources

### Pattern Categories
- `ast-grep://patterns/variables` - Variable declarations and usage
- `ast-grep://patterns/functions` - Function definitions and calls
- `ast-grep://patterns/loops` - Loop constructs
- `ast-grep://patterns/classes` - Class definitions
- `ast-grep://patterns/error-handling` - Try/catch, error patterns
- `ast-grep://patterns/imports` - Import/require statements

### Documentation Types
- `ast-grep://docs/examples-by-language` - All examples organized by language
- `ast-grep://docs/pattern-syntax` - Pattern syntax reference
- `ast-grep://docs/rule-composition` - Building complex rules
- `ast-grep://docs/language-guide/{lang}` - Detailed language guides

### Query Interface
- `ast-grep://query/search?q=console.log` - Search catalog by term
- `ast-grep://query/filter?has_fix=true` - Find rules with fixes
- `ast-grep://query/similar?pattern=function` - Find similar patterns

## 📊 Catalog Resources

### Status and Navigation
- `ast-grep://catalog-status` - Check catalog loading status
- `ast-grep://navigation/language/{lang}` - Examples by language
- `ast-grep://navigation/feature/{feature}` - Examples by feature
- `ast-grep://navigation/has-fix` - Examples with code fixes

### Individual Examples
- `ast-grep://catalog/{id}` - Specific catalog examples (browse navigation first)

## 💡 Tips for Smaller Models

1. **Start Simple**: Begin with `ast-grep://examples/{your-language}`
2. **Use Discovery**: Check `ast-grep://languages` for supported languages
3. **Clear URIs**: All resource URIs follow the pattern `ast-grep://category/specifics`
4. **Error Info**: If something fails, error resources show what went wrong
5. **Status Check**: Use `ast-grep://catalog-status` to troubleshoot catalog issues

## 📖 Usage Examples

### Finding JavaScript Patterns
```
1. Read ast-grep://examples/javascript
2. For more: ast-grep://navigation/language/javascript  
3. Specific pattern: ast-grep://patterns/functions
```

### Creating Rules
```
1. Start with: ast-grep://rule-examples
2. Learn syntax: ast-grep://cheatsheet/rules
3. Advanced: ast-grep://docs/rule-composition
```

### Language Support
```
1. Check: ast-grep://languages
2. Examples: ast-grep://examples/{your-language}
3. Guide: ast-grep://docs/language-guide/{your-language}
```

## 🆘 Troubleshooting

- **Empty results?** Check `ast-grep://catalog-status`
- **Unknown language?** See `ast-grep://languages` for supported ones
- **Need examples?** Start with `ast-grep://examples/{language}`
- **Complex rules?** Read `ast-grep://docs/rule-composition`

This MCP server provides 50+ resources to help you master AST-based code transformation!"#;

/// The supported languages, with the addresses of their examples.
pub const AVAILABLE_LANGUAGES: &'static str = r#"# 📚 Supported Programming Languages

ast-grep supports the following programming languages through Tree-sitter grammars.

## 🔥 Most Popular (with direct example access)

| Language | URI | Description |
|----------|-----|-------------|
| **JavaScript** | `ast-grep://examples/javascript` | JavaScript and TypeScript patterns |
| **Python** | `ast-grep://examples/python` | Python 3.x patterns and idioms |
| **Rust** | `ast-grep://examples/rust` | Rust patterns and error handling |
| **Java** | `ast-grep://examples/java` | Java class and method patterns |
| **Go** | `ast-grep://examples/go` | Go function and error patterns |

## 🌐 All Supported Languages

### Systems Programming
- **C** - `ast-grep://examples/c`
- **C++** - `ast-grep://examples/cpp` 
- **Rust** - `ast-grep://examples/rust`
- **Go** - `ast-grep://examples/go`
- **Zig** - `ast-grep://examples/zig`

### Web & Application Development  
- **JavaScript** - `ast-grep://examples/javascript`
- **TypeScript** - `ast-grep://examples/typescript` (same as javascript)
- **Python** - `ast-grep://examples/python`
- **Java** - `ast-grep://examples/java`
- **C#** - `ast-grep://examples/csharp`
- **Kotlin** - `ast-grep://examples/kotlin`
- **Scala** - `ast-grep://examples/scala`

### Functional Programming
- **Haskell** - `ast-grep://examples/haskell`
- **OCaml** - `ast-grep://examples/ocaml`
- **Elm** - `ast-grep://examples/elm`
- **Clojure** - `ast-grep://examples/clojure`

### Scripting & Dynamic
- **Ruby** - `ast-grep://examples/ruby`
- **PHP** - `ast-grep://examples/php`
- **Lua** - `ast-grep://examples/lua`
- **Perl** - `ast-grep://examples/perl`

### Mobile Development
- **Swift** - `ast-grep://examples/swift`
- **Dart** - `ast-grep://examples/dart`

### Shell & Configuration
- **Bash** - `ast-grep://examples/bash`
- **YAML** - `ast-grep://examples/yaml`
- **JSON** - `ast-grep://examples/json`
- **TOML** - `ast-grep://examples/toml`

### Markup & Documentation  
- **HTML** - `ast-grep://examples/html`
- **CSS** - `ast-grep://examples/css`
- **Markdown** - `ast-grep://examples/markdown`

## 🎯 Usage Patterns

### Get Examples for Any Language
```
ast-grep://examples/{language}
```

### Check Available Patterns
```
ast-grep://navigation/language/{language}
```

### Language-Specific Guides
```
ast-grep://docs/language-guide/{language}
```

## 📝 File Extensions by Language

| Language | Extensions | Example |
|----------|------------|---------|
| JavaScript | `.js`, `.jsx`, `.mjs` | `ast-grep://examples/javascript` |
| TypeScript | `.ts`, `.tsx` | `ast-grep://examples/javascript` |
| Python | `.py`, `.pyw` | `ast-grep://examples/python` |
| Rust | `.rs` | `ast-grep://examples/rust` |
| Java | `.java` | `ast-grep://examples/java` |
| C/C++ | `.c`, `.cpp`, `.h`, `.hpp` | `ast-grep://examples/cpp` |
| Go | `.go` | `ast-grep://examples/go` |

## 💡 Quick Tips

1. **Case Sensitive**: Use exact language names (lowercase)
2. **Aliases**: `typescript` works same as `javascript`
3. **Patterns**: All languages support the same pattern syntax
4. **Node Types**: Use `ast-grep://node-kinds` for language-specific AST nodes

## 🔍 Don't See Your Language?

If your language isn't listed:
1. Check if it has a Tree-sitter grammar
2. File an issue at the ast-grep repository
3. Consider using a similar language's patterns as a starting point"#;

/// The command line reference for the executable at `binary_path`: the
/// template with the path in every place of the placeholder.
pub fn get_cli_reference(binary_path: &str) -> (text: String)
    ensures
        text@ == replaced(CLI_REFERENCE_TEMPLATE@, BINARY_PATH_PLACEHOLDER@, binary_path@),
{
    replace(CLI_REFERENCE_TEMPLATE, BINARY_PATH_PLACEHOLDER, binary_path)
}

/// Examples of rule configurations for common uses.
pub fn get_rule_examples() -> (text: String)
    ensures
        text@ == RULE_EXAMPLES@,
{
    RULE_EXAMPLES.to_owned()
}

/// Examples of relational rules for moving between scopes.
pub fn get_relational_patterns() -> (text: String)
    ensures
        text@ == RELATIONAL_PATTERNS@,
{
    RELATIONAL_PATTERNS.to_owned()
}

/// The kinds of syntax nodes by language, for rules that match by kind.
pub fn get_node_kinds() -> (text: String)
    ensures
        text@ == NODE_KINDS@,
{
    NODE_KINDS.to_owned()
}

/// The cheat sheet of atomic, relational and composite rules.
pub fn get_cheatsheet_rules() -> (text: String)
    ensures
        text@ == CHEATSHEET_RULES@,
{
    CHEATSHEET_RULES.to_owned()
}

/// The cheat sheet of the YAML configuration of a rule.
pub fn get_cheatsheet_yaml() -> (text: String)
    ensures
        text@ == CHEATSHEET_YAML@,
{
    CHEATSHEET_YAML.to_owned()
}

/// Common patterns ordered by programming language.
pub fn get_examples_by_language() -> (text: String)
    ensures
        text@ == EXAMPLES_BY_LANGUAGE@,
{
    EXAMPLES_BY_LANGUAGE.to_owned()
}

/// The reference of the pattern syntax.
pub fn get_pattern_syntax() -> (text: String)
    ensures
        text@ == PATTERN_SYNTAX@,
{
    PATTERN_SYNTAX.to_owned()
}

/// The guide to composing rules.
pub fn get_rule_composition() -> (text: String)
    ensures
        text@ == RULE_COMPOSITION@,
{
    RULE_COMPOSITION.to_owned()
}

/// The guide to all resources of the server and how to use them.
pub fn get_discovery_guide() -> (text: String)
    ensures
        text@ == DISCOVERY_GUIDE@,
{
    DISCOVERY_GUIDE.to_owned()
}

/// The supported languages, with the addresses of their examples.
pub fn get_available_languages() -> (text: String)
    ensures
        text@ == AVAILABLE_LANGUAGES@,
{
    AVAILABLE_LANGUAGES.to_owned()
}

} // verus!
