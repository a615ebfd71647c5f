//! The two patterns of the analysis, as text for the pattern compiler.
//!
//! Each pattern is a fixed text with one gap, and the gap is filled with a
//! name: the text before the gap, the name, the text after the gap. The name
//! stands between double quotes and is not escaped, so a pattern is
//! compiled only for a name that cannot end the quoted text: one without a
//! double quote, a backslash or a line feed.

use vstd::prelude::*;
use vstd::string::*;

verus! {

/// The field-binding pattern up to the interface name.
pub const BINDING_HEAD: &'static str =
    "\n(constructor_declaration\n  parameters: \n    (parameter_list\n      (parameter\n        type: (generic_name (identifier) @typeName)\n        name: (identifier) @varLoggerName\n      )\n    )\n  body: \n    (block \n      (expression_statement \n        (assignment_expression\n          left: (identifier) @assignementName\n          right: (identifier) @varName) \n      )\n    )\n  (#eq? @typeName \"";

/// The field-binding pattern after the interface name.
pub const BINDING_TAIL: &'static str =
    "\") ;; the interface name\n  (#eq? @varLoggerName @varName)\n  (#eq? @assignementName @varName)\n)\n";

/// The usage pattern up to the field's name.
pub const USAGE_HEAD: &'static str =
    "\n(invocation_expression\n  function: \n    (member_access_expression\n      expression: (identifier) @internalName\n      name: (identifier) @methodName\n    )\n  arguments: (argument_list . (argument) @string)\n  (#eq? @internalName \"";

/// The usage pattern after the field's name.
pub const USAGE_TAIL: &'static str = "\")\n)\n";

/// Where, among the captures of a match of the field-binding pattern, the
/// assigned field stands: the pattern declares the parameter's type, the
/// parameter's name, the assignment's left side, then its right side.
pub const BINDING_CAPTURE: usize = 2;

/// Where, among the captures of a match of the usage pattern, the call's
/// first argument stands: the pattern declares the receiver, the method's
/// name, then the argument.
pub const ARGUMENT_CAPTURE: usize = 2;

/// The pattern for a constructor that takes a parameter of the generic type
/// `interface_name` and, in its body, assigns that parameter to a field of
/// the parameter's own name: the assignment's right side is the parameter's
/// name, and its left side is the same identifier.
pub open spec fn binding_pattern_text(interface_name: Seq<char>) -> Seq<char> {
    BINDING_HEAD@ + interface_name + BINDING_TAIL@
}

/// The pattern for a call of a method on `field` with at least one argument.
pub open spec fn usage_pattern_text(field: Seq<char>) -> Seq<char> {
    USAGE_HEAD@ + field + USAGE_TAIL@
}

/// Whether a character can stand in a name between the pattern's double
/// quotes and mean itself there.
pub open spec fn is_plain_char(c: char) -> bool {
    c != '"' && c != '\\' && c != '\n'
}

/// Whether a name can fill a pattern's gap: it holds no double quote, no
/// backslash and no line feed.
pub open spec fn is_plain_name(name: Seq<char>) -> bool {
    forall|i: int| 0 <= i < name.len() ==> is_plain_char(#[trigger] name[i])
}

/// Whether a text is one of the two patterns, its gap filled with a plain
/// name.
pub open spec fn is_analysis_pattern(pattern: Seq<char>) -> bool {
    ||| exists|name: Seq<char>|
        is_plain_name(name) && pattern == #[trigger] binding_pattern_text(name)
    ||| exists|name: Seq<char>| is_plain_name(name) && pattern == #[trigger] usage_pattern_text(name)
}

/// Tells whether a name can fill a pattern's gap.
pub fn plain_name(name: &str) -> (plain: bool)
    ensures
        plain == is_plain_name(name@),
{
    for c in it: name.chars()
        invariant
            it.seq() == name@,
            forall|k: int| 0 <= k < it.index() ==> is_plain_char(#[trigger] name@[k]),
    {
        if c == '"' || c == '\\' || c == '\n' {
            assert(!is_plain_char(name@[it.index() as int]));
            return false;
        }
    }
    true
}

/// The text of the field-binding pattern for `interface_name`.
pub fn binding_pattern(interface_name: &str) -> (pattern: String)
    ensures
        pattern@ == binding_pattern_text(interface_name@),
{
    let mut pattern = BINDING_HEAD.to_owned();
    pattern.append(interface_name);
    pattern.append(BINDING_TAIL);
    pattern
}

/// The text of the usage pattern for `field`.
pub fn usage_pattern(field: &str) -> (pattern: String)
    ensures
        pattern@ == usage_pattern_text(field@),
{
    let mut pattern = USAGE_HEAD.to_owned();
    pattern.append(field);
    pattern.append(USAGE_TAIL);
    pattern
}

} // verus!
