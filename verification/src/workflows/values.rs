//! The rules that the value of an argument must meet, by the kind of the
//! argument.

use vstd::prelude::*;
use crate::outside::{
    debug_format, debug_list, lowercase, parses_as_url, pattern_matches, regex_is_match,
    to_lowercase, url_parses,
};
use crate::text::{chars_of, owned, push_text, same_text, string_of, texts};
use crate::workflows::number::{is_float_text, is_number_text};
use crate::workflows::{ArgumentModel, ArgumentType, ErrorModel, WorkflowArgument, WorkflowError};

verus! {

/// The pattern that an e-mail address must match as a whole: something, an
/// at sign, something, a point, something, where something is one or more
/// characters that are neither white space nor an at sign.
pub const EMAIL_PATTERN: &'static str = r"^[^\s@]+@[^\s@]+\.[^\s@]+$";

/// A lower-case text that stands for a truth value.
pub open spec fn is_boolean_word(lowered: Seq<char>) -> bool {
    lowered == "true"@ || lowered == "false"@ || lowered == "1"@ || lowered == "0"@ || lowered
        == "yes"@ || lowered == "no"@
}

/// The text holds the character with code zero.
pub open spec fn has_null(value: Seq<char>) -> bool {
    exists|i: int| 0 <= i < value.len() && #[trigger] value[i] == '\0'
}

/// The message that names a value between single quotes and says what it
/// fails to be.
pub open spec fn not_valid_message(value: Seq<char>, what: Seq<char>) -> Seq<char> {
    "'"@ + value + what
}

/// The error for a value that is not among the options of its argument.
pub open spec fn not_an_option_error(value: Seq<char>, listed: Seq<char>) -> ErrorModel {
    ErrorModel::InvalidArgumentValue(
        not_valid_message(value, "' is not one of the valid options: "@) + listed,
    )
}

/// What is wrong with a value that is checked, by the kind of its argument:
/// a `Number` must be the text of a 64-bit floating-point number, a
/// `Boolean` one of six words in any case, a `Path` free of the character
/// with code zero, a `Url` an absolute URL, an `Email` a match of
/// `EMAIL_PATTERN`, an `Enum` one of the listed options where options are
/// listed. A `String` is never wrong.
pub open spec fn kind_fault(a: ArgumentModel, value: Seq<char>) -> Option<ErrorModel> {
    match a.arg_type {
        ArgumentType::String => None,
        ArgumentType::Number => if is_float_text(value) {
            None
        } else {
            Some(
                ErrorModel::InvalidArgumentValue(
                    not_valid_message(value, "' is not a valid number"@),
                ),
            )
        },
        ArgumentType::Boolean => if is_boolean_word(lowercase(value)) {
            None
        } else {
            Some(
                ErrorModel::InvalidArgumentValue(
                    not_valid_message(value, "' is not a valid boolean"@),
                ),
            )
        },
        ArgumentType::Path => if has_null(value) {
            Some(ErrorModel::InvalidArgumentValue("Path cannot contain null characters"@))
        } else {
            None
        },
        ArgumentType::Url => if url_parses(value) {
            None
        } else {
            Some(
                ErrorModel::InvalidArgumentValue(
                    not_valid_message(value, "' is not a valid URL"@),
                ),
            )
        },
        ArgumentType::Email => if regex_is_match(EMAIL_PATTERN@, value) == Some(true) {
            None
        } else {
            Some(
                ErrorModel::InvalidArgumentValue(
                    not_valid_message(value, "' is not a valid email"@),
                ),
            )
        },
        ArgumentType::Enum => match a.options {
            Some(options) => if options.contains(value) {
                None
            } else {
                Some(not_an_option_error(value, debug_list(options)))
            },
            None => None,
        },
    }
}

/// What is wrong with the value of an argument: an empty value of an
/// argument that is not required is in order as it is; every other value,
/// the empty value of a required argument too, must meet the rule of its
/// kind.
pub open spec fn value_fault(a: ArgumentModel, value: Seq<char>) -> Option<ErrorModel> {
    if value.len() == 0 && !a.required {
        None
    } else {
        kind_fault(a, value)
    }
}

/// The view of the outcome of a check.
pub open spec fn fault_of(r: Result<(), WorkflowError>) -> Option<ErrorModel> {
    match r {
        Ok(_) => None,
        Err(e) => Some(e@),
    }
}

/// The error that names a value between single quotes and says what it fails
/// to be.
pub fn not_valid(value: &str, what: &str) -> (e: WorkflowError)
    ensures
        e@ == ErrorModel::InvalidArgumentValue(not_valid_message(value@, what@)),
{
    let mut chars: Vec<char> = Vec::new();
    push_text(&mut chars, "'");
    push_text(&mut chars, value);
    push_text(&mut chars, what);
    WorkflowError::InvalidArgumentValue(string_of(&chars))
}

/// The error for a value that is not among the options, which are `listed`
/// as a text.
pub fn not_an_option(value: &str, listed: &str) -> (e: WorkflowError)
    ensures
        e@ == not_an_option_error(value@, listed@),
{
    let mut chars: Vec<char> = Vec::new();
    push_text(&mut chars, "'");
    push_text(&mut chars, value);
    push_text(&mut chars, "' is not one of the valid options: ");
    push_text(&mut chars, listed);
    WorkflowError::InvalidArgumentValue(string_of(&chars))
}

/// Checks a `Number`: the value must be the text of a 64-bit floating-point
/// number.
pub fn check_number(value: &str) -> (r: Result<(), WorkflowError>)
    ensures
        r is Ok <==> is_float_text(value@),
        r matches Err(e) ==> e@ == ErrorModel::InvalidArgumentValue(
            not_valid_message(value@, "' is not a valid number"@),
        ),
{
    if is_number_text(value) {
        Ok(())
    } else {
        Err(not_valid(value, "' is not a valid number"))
    }
}

/// Checks a `Boolean`, given the value in lower case: that must be `true`,
/// `false`, `1`, `0`, `yes` or `no`.
pub fn check_boolean(value: &str, lowered: &str) -> (r: Result<(), WorkflowError>)
    ensures
        r is Ok <==> is_boolean_word(lowered@),
        r matches Err(e) ==> e@ == ErrorModel::InvalidArgumentValue(
            not_valid_message(value@, "' is not a valid boolean"@),
        ),
{
    if same_text(lowered, "true") || same_text(lowered, "false") || same_text(lowered, "1")
        || same_text(lowered, "0") || same_text(lowered, "yes") || same_text(lowered, "no") {
        Ok(())
    } else {
        Err(not_valid(value, "' is not a valid boolean"))
    }
}

/// Checks a `Path`: the value must not hold the character with code zero.
pub fn check_path(value: &str) -> (r: Result<(), WorkflowError>)
    ensures
        r is Ok <==> !has_null(value@),
        r matches Err(e) ==> e@ == ErrorModel::InvalidArgumentValue(
            "Path cannot contain null characters"@,
        ),
{
    let chars = chars_of(value);
    let mut i: usize = 0;
    while i < chars.len()
        invariant
            i <= chars.len(),
            chars@ == value@,
            forall|j: int| 0 <= j < i ==> chars@[j] != '\0',
        decreases chars.len() - i,
    {
        if chars[i] == '\0' {
            return Err(
                WorkflowError::InvalidArgumentValue(owned("Path cannot contain null characters")),
            );
        }
        i += 1;
    }
    Ok(())
}

/// Checks a `Url`, given whether the value parsed as an absolute URL.
pub fn check_url(value: &str, parsed: bool) -> (r: Result<(), WorkflowError>)
    ensures
        r is Ok <==> parsed,
        r matches Err(e) ==> e@ == ErrorModel::InvalidArgumentValue(
            not_valid_message(value@, "' is not a valid URL"@),
        ),
{
    if parsed {
        Ok(())
    } else {
        Err(not_valid(value, "' is not a valid URL"))
    }
}

/// Checks an `Email`, given what matching the value against `EMAIL_PATTERN`
/// gave. Only a match is in order.
pub fn check_email(value: &str, matched: Option<bool>) -> (r: Result<(), WorkflowError>)
    ensures
        r is Ok <==> matched == Some(true),
        r matches Err(e) ==> e@ == ErrorModel::InvalidArgumentValue(
            not_valid_message(value@, "' is not a valid email"@),
        ),
{
    match matched {
        Some(true) => Ok(()),
        _ => Err(not_valid(value, "' is not a valid email")),
    }
}

/// Whether `value` is one of `options`.
pub fn is_option(options: &Vec<String>, value: &str) -> (found: bool)
    ensures
        found == texts(options@).contains(value@),
{
    let mut i: usize = 0;
    while i < options.len()
        invariant
            i <= options.len(),
            forall|j: int| 0 <= j < i ==> texts(options@)[j] != value@,
        decreases options.len() - i,
    {
        if same_text(options[i].as_str(), value) {
            assert(texts(options@)[i as int] == value@);
            return true;
        }
        i += 1;
    }
    false
}

/// Checks a value by the kind of its argument.
pub fn check_kind(arg_def: &WorkflowArgument, value: &str) -> (r: Result<(), WorkflowError>)
    ensures
        fault_of(r) == kind_fault(arg_def@, value@),
{
    match arg_def.arg_type {
        ArgumentType::String => Ok(()),
        ArgumentType::Number => check_number(value),
        ArgumentType::Boolean => {
            let lowered = to_lowercase(value);
            check_boolean(value, lowered.as_str())
        },
        ArgumentType::Path => check_path(value),
        ArgumentType::Url => check_url(value, parses_as_url(value)),
        ArgumentType::Email => check_email(value, pattern_matches(EMAIL_PATTERN, value)),
        ArgumentType::Enum => match &arg_def.options {
            Some(options) => {
                if is_option(options, value) {
                    Ok(())
                } else {
                    let listed = debug_format(options);
                    Err(not_an_option(value, listed.as_str()))
                }
            },
            None => Ok(()),
        },
    }
}

/// Checks the value that an argument is to take.
pub fn check_value(arg_def: &WorkflowArgument, value: &str) -> (r: Result<(), WorkflowError>)
    ensures
        fault_of(r) == value_fault(arg_def@, value@),
{
    if value.is_empty() && !arg_def.required {
        Ok(())
    } else {
        check_kind(arg_def, value)
    }
}

/// An `Enum` argument that lists options takes exactly the listed values:
/// any other value is an `InvalidArgumentValue`. Only the empty value of an
/// argument that is not required is never checked.
pub proof fn lemma_enum_takes_its_options(a: ArgumentModel, value: Seq<char>)
    requires
        a.arg_type == ArgumentType::Enum,
        a.options is Some,
        value.len() > 0 || a.required,
    ensures
        a.options->0.contains(value) ==> value_fault(a, value) is None,
        !a.options->0.contains(value) ==> value_fault(a, value) is Some && value_fault(
            a,
            value,
        )->0 is InvalidArgumentValue,
{
}

} // verus!
