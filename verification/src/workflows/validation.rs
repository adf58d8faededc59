//! The rules a workflow must meet before it is stored or run.

use vstd::prelude::*;
use crate::text::{
    chars_of, contains, contains_chars, occurs_at, opt_text, owned, push_text, same_text,
    string_of, texts,
};
use crate::workflows::placeholders::{
    closing_at, extract_placeholder_names, lemma_next_closing, next_closing, opening_at,
    placeholder_text, placeholders, placeholders_from,
};
use crate::workflows::{
    ArgumentModel, ArgumentType, ErrorModel, Shell, Workflow, WorkflowArgument, WorkflowError,
    WorkflowModel, argument_models,
};

verus! {

/// The workflow runs in `shell`: it names no shells, or names this one.
pub open spec fn compatible(w: WorkflowModel, shell: Shell) -> bool {
    match w.shells {
        None => true,
        Some(shells) => shells.contains(shell),
    }
}

/// The message for an argument whose placeholder is missing from the command.
pub open spec fn unused_argument_message(name: Seq<char>) -> Seq<char> {
    "Argument '"@ + name + "' is not used in command"@
}

/// The argument lists at least one option.
pub open spec fn lists_options(a: ArgumentModel) -> bool {
    a.options is Some && a.options->0.len() > 0
}

/// The message for an `Enum` argument that lists no options.
pub open spec fn enum_without_options_message(name: Seq<char>) -> Seq<char> {
    "Enum argument '"@ + name + "' must have options"@
}

/// The message for a placeholder that no argument declares.
pub open spec fn undeclared_placeholder_message(name: Seq<char>) -> Seq<char> {
    "Placeholder '"@ + name + "' has no corresponding argument"@
}

/// An argument named `name` is declared.
pub open spec fn declares(args: Seq<ArgumentModel>, name: Seq<char>) -> bool {
    exists|k: int| 0 <= k < args.len() && (#[trigger] args[k]).name == name
}

/// The first rule that an argument breaks, by its message.
pub open spec fn argument_fault(command: Seq<char>, a: ArgumentModel) -> Option<Seq<char>> {
    if a.name.len() == 0 {
        Some("Argument name is required"@)
    } else if !contains(command, placeholder_text(a.name)) {
        Some(unused_argument_message(a.name))
    } else if a.arg_type == ArgumentType::Enum && !lists_options(a) {
        Some(enum_without_options_message(a.name))
    } else {
        None
    }
}

/// The fault of the first argument from position `i` on that has one.
pub open spec fn arguments_fault(
    command: Seq<char>,
    args: Seq<ArgumentModel>,
    i: int,
) -> Option<Seq<char>>
    decreases args.len() - i,
{
    if i < 0 || i >= args.len() {
        None
    } else {
        match argument_fault(command, args[i]) {
            Some(m) => Some(m),
            None => arguments_fault(command, args, i + 1),
        }
    }
}

/// The message for the first name from position `i` on that no argument
/// declares.
pub open spec fn undeclared_fault(
    args: Seq<ArgumentModel>,
    names: Seq<Seq<char>>,
    i: int,
) -> Option<Seq<char>>
    decreases names.len() - i,
{
    if i < 0 || i >= names.len() {
        None
    } else if !declares(args, names[i]) {
        Some(undeclared_placeholder_message(names[i]))
    } else {
        undeclared_fault(args, names, i + 1)
    }
}

/// The message for the first rule that a workflow breaks, the rules taken in
/// this order: the name is not empty; the command is not empty; a list of
/// shells is not empty; each argument in turn has a name, stands in the
/// command as `{{name}}`, and lists at least one option if it is an `Enum`; each
/// placeholder of the command in turn is declared as an argument.
pub open spec fn validation_fault(w: WorkflowModel) -> Option<Seq<char>> {
    if w.name.len() == 0 {
        Some("Name is required"@)
    } else if w.command.len() == 0 {
        Some("Command is required"@)
    } else if w.shells is Some && w.shells->0.len() == 0 {
        Some("Shells array cannot be empty"@)
    } else if arguments_fault(w.command, w.arguments, 0) is Some {
        arguments_fault(w.command, w.arguments, 0)
    } else {
        undeclared_fault(w.arguments, placeholders(w.command), 0)
    }
}

/// A workflow that meets every rule: arguments and placeholders answer one
/// another.
pub open spec fn is_valid(w: WorkflowModel) -> bool {
    &&& w.name.len() > 0
    &&& w.command.len() > 0
    &&& w.shells is Some ==> w.shells->0.len() > 0
    &&& forall|k: int|
        0 <= k < w.arguments.len() ==> {
            &&& (#[trigger] w.arguments[k]).name.len() > 0
            &&& contains(w.command, placeholder_text(w.arguments[k].name))
            &&& w.arguments[k].arg_type == ArgumentType::Enum ==> lists_options(w.arguments[k])
        }
    &&& forall|p: int|
        0 <= p < placeholders(w.command).len() ==> declares(
            w.arguments,
            #[trigger] placeholders(w.command)[p],
        )
}

/// No argument from `i` on has a fault exactly when each of them meets the
/// three rules for arguments.
pub proof fn lemma_arguments_fault(command: Seq<char>, args: Seq<ArgumentModel>, i: int)
    requires
        0 <= i <= args.len(),
    ensures
        arguments_fault(command, args, i) is None <==> forall|k: int|
            i <= k < args.len() ==> argument_fault(command, #[trigger] args[k]) is None,
    decreases args.len() - i,
{
    if i < args.len() {
        lemma_arguments_fault(command, args, i + 1);
    }
}

/// No name from `i` on is undeclared exactly when each of them is declared.
pub proof fn lemma_undeclared_fault(args: Seq<ArgumentModel>, names: Seq<Seq<char>>, i: int)
    requires
        0 <= i <= names.len(),
    ensures
        undeclared_fault(args, names, i) is None <==> forall|p: int|
            i <= p < names.len() ==> declares(args, #[trigger] names[p]),
    decreases names.len() - i,
{
    if i < names.len() {
        lemma_undeclared_fault(args, names, i + 1);
    }
}

/// A workflow is valid exactly when no rule gives a fault.
pub proof fn lemma_valid_iff_no_fault(w: WorkflowModel)
    ensures
        is_valid(w) <==> validation_fault(w) is None,
{
    lemma_arguments_fault(w.command, w.arguments, 0);
    lemma_undeclared_fault(w.arguments, placeholders(w.command), 0);
    if is_valid(w) {
        assert forall|k: int| 0 <= k < w.arguments.len() implies argument_fault(
            w.command,
            #[trigger] w.arguments[k],
        ) is None by {}
    }
    if validation_fault(w) is None {
        assert forall|k: int| 0 <= k < w.arguments.len() implies {
            &&& (#[trigger] w.arguments[k]).name.len() > 0
            &&& contains(w.command, placeholder_text(w.arguments[k].name))
            &&& w.arguments[k].arg_type == ArgumentType::Enum ==> lists_options(w.arguments[k])
        } by {
            assert(argument_fault(w.command, w.arguments[k]) is None);
        }
    }
}

/// A workflow whose command holds a placeholder that no argument declares is
/// not valid, and neither is one that declares an argument whose placeholder
/// stands nowhere in the command.
pub proof fn lemma_unmatched_is_rejected(w: WorkflowModel)
    ensures
        (exists|p: int|
            0 <= p < placeholders(w.command).len() && !declares(
                w.arguments,
                #[trigger] placeholders(w.command)[p],
            )) ==> validation_fault(w) is Some,
        (exists|k: int|
            0 <= k < w.arguments.len() && !contains(
                w.command,
                placeholder_text((#[trigger] w.arguments[k]).name),
            )) ==> validation_fault(w) is Some,
{
    lemma_valid_iff_no_fault(w);
}

/// A name that cannot run into the braces around it: it neither begins with
/// an opening brace nor ends with a closing one, and holds neither two
/// opening nor two closing braces in a row.
pub open spec fn well_delimited(name: Seq<char>) -> bool {
    &&& name.len() > 0 ==> name[0] != '{' && name[name.len() - 1] != '}'
    &&& forall|k: int|
        0 <= k && k + 1 < name.len() ==> !((#[trigger] name[k]) == '{' && name[k + 1] == '{')
    &&& forall|k: int|
        0 <= k && k + 1 < name.len() ==> !((#[trigger] name[k]) == '}' && name[k + 1] == '}')
}

/// The names of the declared arguments, in their order.
pub open spec fn argument_names(w: WorkflowModel) -> Seq<Seq<char>> {
    w.arguments.map_values(|a: ArgumentModel| a.name)
}

/// Where `{{name}}` stands at `q`, a scan that starts at or before `q` and
/// yields well-delimited names only yields `name`.
proof fn lemma_scan_reaches(s: Seq<char>, i: int, q: int, name: Seq<char>)
    requires
        0 <= i <= q,
        occurs_at(s, placeholder_text(name), q),
        name.len() > 0,
        well_delimited(name),
        forall|p: int|
            0 <= p < placeholders_from(s, i).len() ==> well_delimited(
                #[trigger] placeholders_from(s, i)[p],
            ),
    ensures
        placeholders_from(s, i).contains(name),
    decreases s.len() - i,
{
    let text = placeholder_text(name);
    let len = name.len() as int;
    let end = q + 2 + len;
    assert(text.len() == len + 4);
    assert forall|k: int| 0 <= k < len + 4 implies s[q + k] == #[trigger] text[k] by {
        assert(s.subrange(q, q + text.len())[k] == s[q + k]);
    }
    assert(text[0] == '{' && text[1] == '{');
    assert(text[len + 2] == '}' && text[len + 3] == '}');
    assert(s[q] == '{' && s[q + 1] == '{');
    assert(s[end] == '}' && s[end + 1] == '}');
    assert(closing_at(s, end));
    assert forall|k: int| 0 <= k < len implies s[q + 2 + k] == name[k] by {
        assert(text[k + 2] == name[k]);
    }
    let here = placeholders_from(s, i);
    if opening_at(s, i) {
        let j = next_closing(s, i + 2);
        lemma_next_closing(s, i + 2);
        assert(j <= end);
        assert(closing_at(s, j));
        if j + 2 <= q {
            let rest = placeholders_from(s, j + 2);
            if j == i + 2 {
                assert(here == rest);
            } else {
                assert(here == seq![s.subrange(i + 2, j)] + rest);
                assert forall|p: int| 0 <= p < rest.len() implies well_delimited(
                    #[trigger] rest[p],
                ) by {
                    assert(here[p + 1] == rest[p]);
                }
            }
            lemma_scan_reaches(s, j + 2, q, name);
            let at = choose|p: int| 0 <= p < rest.len() && rest[p] == name;
            if j != i + 2 {
                assert(here[at + 1] == name);
            }
        } else if j == end {
            let found = s.subrange(i + 2, j);
            assert(here == seq![found] + placeholders_from(s, j + 2));
            assert(here[0] == found);
            if i == q {
                assert(found =~= name);
            } else {
                assert(well_delimited(found));
                if i + 1 == q {
                    assert(found[0] == s[q + 1]);
                } else {
                    assert(found[q - i - 2] == s[q]);
                    assert(found[q - i - 1] == s[q + 1]);
                }
            }
        } else {
            // the closing braces at `j` would have to stand inside `{{name`
            if j >= q + 2 {
                assert(s[j] == name[j - q - 2]);
                if j + 1 < end {
                    assert(s[j + 1] == name[j - q - 1]);
                }
            }
        }
    } else {
        assert(i < q);
        lemma_scan_reaches(s, i + 1, q, name);
    }
}

/// In a valid workflow whose argument names are all well delimited, the
/// placeholders of the command are exactly the argument names: every declared
/// name is found by the scan, and the scan finds nothing else. A name occurs
/// among the placeholders once for each time the command holds it.
pub proof fn lemma_placeholders_are_argument_names(w: WorkflowModel)
    requires
        is_valid(w),
        forall|k: int|
            0 <= k < w.arguments.len() ==> well_delimited((#[trigger] w.arguments[k]).name),
    ensures
        placeholders(w.command).to_set() == argument_names(w).to_set(),
{
    let found = placeholders(w.command);
    let names = argument_names(w);
    assert forall|p: int| 0 <= p < found.len() implies well_delimited(#[trigger] found[p]) by {
        assert(declares(w.arguments, found[p]));
    }
    assert forall|n: Seq<char>| found.contains(n) <==> names.contains(n) by {
        if found.contains(n) {
            let p = choose|p: int| 0 <= p < found.len() && found[p] == n;
            assert(declares(w.arguments, found[p]));
            let k = choose|k: int|
                0 <= k < w.arguments.len() && (#[trigger] w.arguments[k]).name == n;
            assert(names[k] == n);
        }
        if names.contains(n) {
            let k = choose|k: int| 0 <= k < names.len() && names[k] == n;
            assert(w.arguments[k].name == n);
            let q = choose|q: int| occurs_at(w.command, placeholder_text(n), q);
            lemma_scan_reaches(w.command, 0, q, n);
        }
    }
    assert(found.to_set() =~= names.to_set());
}

/// Every placeholder of a valid workflow's command is the name of a declared
/// argument, whatever the names look like.
pub proof fn lemma_placeholders_are_declared(w: WorkflowModel)
    requires
        is_valid(w),
    ensures
        placeholders(w.command).to_set().subset_of(argument_names(w).to_set()),
{
    let found = placeholders(w.command);
    let names = argument_names(w);
    assert forall|n: Seq<char>| found.contains(n) implies names.contains(n) by {
        let p = choose|p: int| 0 <= p < found.len() && found[p] == n;
        assert(declares(w.arguments, found[p]));
        let k = choose|k: int| 0 <= k < w.arguments.len() && (#[trigger] w.arguments[k]).name == n;
        assert(names[k] == n);
    }
}

/// The text `head`, then `name`, then `tail`.
fn framed(head: &str, name: &str, tail: &str) -> (out: String)
    ensures
        out@ == head@ + name@ + tail@,
{
    let mut chars: Vec<char> = Vec::new();
    push_text(&mut chars, head);
    push_text(&mut chars, name);
    push_text(&mut chars, tail);
    string_of(&chars)
}

/// The characters of `{{name}}`.
pub fn placeholder_chars(name: &str) -> (out: Vec<char>)
    ensures
        out@ == placeholder_text(name@),
{
    let mut chars: Vec<char> = Vec::new();
    chars.push('{');
    chars.push('{');
    push_text(&mut chars, name);
    chars.push('}');
    chars.push('}');
    assert(chars@ =~= placeholder_text(name@));
    chars
}

/// The first rule that an argument breaks.
fn check_argument(command: &Vec<char>, arg: &WorkflowArgument) -> (fault: Option<String>)
    ensures
        opt_text(fault) == argument_fault(command@, arg@),
{
    if arg.name.as_str().is_empty() {
        return Some(owned("Argument name is required"));
    }
    let placeholder = placeholder_chars(arg.name.as_str());
    if !contains_chars(command, &placeholder) {
        return Some(framed("Argument '", arg.name.as_str(), "' is not used in command"));
    }
    let listed = match &arg.options {
        Some(options) => options.len() > 0,
        None => false,
    };
    if arg.arg_type == ArgumentType::Enum && !listed {
        return Some(framed("Enum argument '", arg.name.as_str(), "' must have options"));
    }
    None
}

/// Whether an argument named `name` is declared.
pub fn is_declared(args: &Vec<WorkflowArgument>, name: &str) -> (found: bool)
    ensures
        found == declares(argument_models(args@), name@),
{
    let mut k: usize = 0;
    while k < args.len()
        invariant
            k <= args.len(),
            forall|j: int| 0 <= j < k ==> argument_models(args@)[j].name != name@,
        decreases args.len() - k,
    {
        if same_text(args[k].name.as_str(), name) {
            assert(argument_models(args@)[k as int].name == name@);
            return true;
        }
        k += 1;
    }
    false
}

impl Workflow {
    /// The placeholder names of the command, one for each occurrence, in the
    /// order in which they stand.
    pub fn extract_placeholders(&self) -> (names: Vec<String>)
        ensures
            texts(names@) == placeholders(self@.command),
    {
        extract_placeholder_names(&chars_of(self.command.as_str()))
    }

    /// Whether the workflow runs in `shell`: it does where it names no shells
    /// or names this one.
    #[verifier::loop_isolation(false)]
    pub fn is_compatible_with_shell(&self, shell: &Shell) -> (r: bool)
        ensures
            r == compatible(self@, *shell),
    {
        match &self.shells {
            None => true,
            Some(shells) => {
                let mut i: usize = 0;
                while i < shells.len()
                    invariant
                        i <= shells.len(),
                        forall|j: int| 0 <= j < i ==> shells@[j] != *shell,
                    decreases shells.len() - i,
                {
                    if shells[i] == *shell {
                        assert(shells@[i as int] == *shell);
                        return true;
                    }
                    i += 1;
                }
                false
            },
        }
    }

    /// Checks the rules in their order and reports the first that is broken.
    #[verifier::loop_isolation(false)]
    pub fn validate(&self) -> (r: Result<(), WorkflowError>)
        ensures
            r is Ok <==> is_valid(self@),
            r matches Err(e) ==> validation_fault(self@) is Some && e@
                == ErrorModel::ValidationError(validation_fault(self@)->0),
    {
        proof {
            lemma_valid_iff_no_fault(self@);
        }
        if self.name.as_str().is_empty() {
            return Err(WorkflowError::ValidationError(owned("Name is required")));
        }
        if self.command.as_str().is_empty() {
            return Err(WorkflowError::ValidationError(owned("Command is required")));
        }
        match &self.shells {
            Some(shells) => {
                if shells.len() == 0 {
                    return Err(
                        WorkflowError::ValidationError(owned("Shells array cannot be empty")),
                    );
                }
            },
            None => {},
        }
        let command = chars_of(self.command.as_str());
        let mut i: usize = 0;
        while i < self.arguments.len()
            invariant
                i <= self.arguments.len(),
                command@ == self@.command,
                arguments_fault(self@.command, self@.arguments, i as int) == arguments_fault(
                    self@.command,
                    self@.arguments,
                    0,
                ),
            decreases self.arguments.len() - i,
        {
            match check_argument(&command, &self.arguments[i]) {
                Some(m) => {
                    return Err(WorkflowError::ValidationError(m));
                },
                None => {},
            }
            i += 1;
        }
        let names = extract_placeholder_names(&command);
        let mut p: usize = 0;
        while p < names.len()
            invariant
                p <= names.len(),
                texts(names@) == placeholders(self@.command),
                undeclared_fault(self@.arguments, placeholders(self@.command), p as int)
                    == undeclared_fault(self@.arguments, placeholders(self@.command), 0),
            decreases names.len() - p,
        {
            if !is_declared(&self.arguments, names[p].as_str()) {
                return Err(
                    WorkflowError::ValidationError(
                        framed(
                            "Placeholder '",
                            names[p].as_str(),
                            "' has no corresponding argument",
                        ),
                    ),
                );
            }
            p += 1;
        }
        Ok(())
    }
}

} // verus!
