//! What resolving a workflow gives: the value of every argument, checked,
//! and the command with the quoted values in the place of the placeholders.

use vstd::prelude::*;
use crate::outside::{debug_list, regex_first_group};
use crate::text::lookup;
use crate::workflows::executor::{ExecutionModel, NAME_GROUP, UNRESOLVED_PATTERN};
use crate::workflows::escape::{Quoting, posix_quoted, word_read};
use crate::workflows::substitution::{
    lemma_each_value_reads_back, parts_from, rendered, substituted,
};
use crate::workflows::validation::{compatible, declares};
use crate::workflows::values::value_fault;
use crate::workflows::{ArgumentModel, ErrorModel, Shell, WorkflowModel};

verus! {

/// The value that an argument takes: the supplied one, else the default,
/// else the empty text where the argument is not required. `None` where a
/// required argument has neither.
pub open spec fn value_for(
    a: ArgumentModel,
    supplied: Seq<(Seq<char>, Seq<char>)>,
) -> Option<Seq<char>> {
    match lookup(supplied, a.name) {
        Some(v) => Some(v),
        None => match a.default_value {
            Some(d) => Some(d),
            None => if a.required {
                None
            } else {
                Some(Seq::empty())
            },
        },
    }
}

/// The value that an argument takes, checked, or what is wrong with it.
pub open spec fn argument_outcome(
    a: ArgumentModel,
    supplied: Seq<(Seq<char>, Seq<char>)>,
) -> Result<Seq<char>, ErrorModel> {
    match value_for(a, supplied) {
        None => Err(ErrorModel::MissingArgument(a.name)),
        Some(v) => match value_fault(a, v) {
            Some(e) => Err(e),
            None => Ok(v),
        },
    }
}

/// `head` in front of a list that may have failed.
pub open spec fn after<T>(head: Seq<T>, rest: Result<Seq<T>, ErrorModel>) -> Result<
    Seq<T>,
    ErrorModel,
> {
    match rest {
        Ok(r) => Ok(head + r),
        Err(e) => Err(e),
    }
}

/// The values of the arguments from position `i` on, each with its name, or
/// the error of the first argument that has one.
pub open spec fn resolve_from(
    args: Seq<ArgumentModel>,
    supplied: Seq<(Seq<char>, Seq<char>)>,
    i: int,
) -> Result<Seq<(Seq<char>, Seq<char>)>, ErrorModel>
    decreases args.len() - i,
{
    if i < 0 || i >= args.len() {
        Ok(Seq::empty())
    } else {
        match argument_outcome(args[i], supplied) {
            Err(e) => Err(e),
            Ok(v) => after(seq![(args[i].name, v)], resolve_from(args, supplied, i + 1)),
        }
    }
}

/// The supplied names from position `i` on that no argument declares.
pub open spec fn unexpected_from(
    args: Seq<ArgumentModel>,
    supplied: Seq<(Seq<char>, Seq<char>)>,
    i: int,
) -> Seq<Seq<char>>
    decreases supplied.len() - i,
{
    if i < 0 || i >= supplied.len() {
        Seq::empty()
    } else if declares(args, supplied[i].0) {
        unexpected_from(args, supplied, i + 1)
    } else {
        seq![supplied[i].0] + unexpected_from(args, supplied, i + 1)
    }
}

/// The error that lists supplied names that no argument declares.
pub open spec fn unexpected_error(names: Seq<Seq<char>>) -> ErrorModel {
    ErrorModel::ArgumentError("Unexpected arguments: "@ + debug_list(names))
}

/// The values of all arguments. Each argument in turn takes its value and
/// has it checked; the first that fails gives the error. After that, a
/// supplied name that no argument declares is an error.
pub open spec fn resolved_values(
    args: Seq<ArgumentModel>,
    supplied: Seq<(Seq<char>, Seq<char>)>,
) -> Result<Seq<(Seq<char>, Seq<char>)>, ErrorModel> {
    match resolve_from(args, supplied, 0) {
        Err(e) => Err(e),
        Ok(values) => if unexpected_from(args, supplied, 0).len() > 0 {
            Err(unexpected_error(unexpected_from(args, supplied, 0)))
        } else {
            Ok(values)
        },
    }
}

/// The error for a placeholder that is left in a command.
pub open spec fn unresolved_error(name: Seq<char>) -> ErrorModel {
    ErrorModel::ArgumentError("Unresolved placeholder: "@ + name)
}

/// A command after substitution, given what a search for a placeholder in it
/// found: a placeholder that is left and has a name is an error.
pub open spec fn settled(
    text: Seq<char>,
    found: Option<Option<Option<Seq<char>>>>,
) -> Result<Seq<char>, ErrorModel> {
    match found {
        Some(Some(Some(name))) => Err(unresolved_error(name)),
        _ => Ok(text),
    }
}

/// The resolved command, or the error for a placeholder that is left in it.
pub open spec fn substitution(
    command: Seq<char>,
    values: Seq<(Seq<char>, Seq<char>)>,
    shell: Shell,
) -> Result<Seq<char>, ErrorModel> {
    settled(
        substituted(command, values, shell),
        regex_first_group(
            UNRESOLVED_PATTERN@,
            NAME_GROUP as nat,
            substituted(command, values, shell),
        ),
    )
}

/// What resolving a workflow for a shell gives: the shell must be one the
/// workflow runs in, the arguments must resolve, and no placeholder may be
/// left in the command.
pub open spec fn resolution(
    w: WorkflowModel,
    supplied: Seq<(Seq<char>, Seq<char>)>,
    shell: Shell,
) -> Result<ExecutionModel, ErrorModel> {
    if !compatible(w, shell) {
        Err(ErrorModel::UnsupportedShell(shell))
    } else {
        match resolved_values(w.arguments, supplied) {
            Err(e) => Err(e),
            Ok(values) => match substitution(w.command, values, shell) {
                Err(e) => Err(e),
                Ok(command) => Ok(
                    ExecutionModel {
                        workflow: w,
                        arguments: values,
                        resolved_command: command,
                        shell: shell,
                    },
                ),
            },
        }
    }
}

/// Where every argument before `k` has a value in order and the argument at
/// `k` has none, resolving the arguments from `i <= k` on gives the error of
/// the argument at `k`.
pub proof fn lemma_first_error_wins(
    args: Seq<ArgumentModel>,
    supplied: Seq<(Seq<char>, Seq<char>)>,
    i: int,
    k: int,
)
    requires
        0 <= i <= k < args.len(),
        argument_outcome(args[k], supplied) is Err,
        forall|j: int| i <= j < k ==> argument_outcome(#[trigger] args[j], supplied) is Ok,
    ensures
        resolve_from(args, supplied, i) == Err::<Seq<(Seq<char>, Seq<char>)>, ErrorModel>(
            argument_outcome(args[k], supplied)->Err_0,
        ),
    decreases k - i,
{
    if i < k {
        assert(argument_outcome(args[i], supplied) is Ok);
        lemma_first_error_wins(args, supplied, i + 1, k);
    }
}

/// Where some argument from `i` on has no value in order, resolving the
/// arguments from `i` on fails.
pub proof fn lemma_some_error_fails(
    args: Seq<ArgumentModel>,
    supplied: Seq<(Seq<char>, Seq<char>)>,
    i: int,
    k: int,
)
    requires
        0 <= i <= k < args.len(),
        argument_outcome(args[k], supplied) is Err,
    ensures
        resolve_from(args, supplied, i) is Err,
    decreases k - i,
{
    if i < k {
        lemma_some_error_fails(args, supplied, i + 1, k);
    }
}

/// Where some supplied name from `i` on is not declared, the list of
/// unexpected names from `i` on is not empty.
pub proof fn lemma_unexpected_is_listed(
    args: Seq<ArgumentModel>,
    supplied: Seq<(Seq<char>, Seq<char>)>,
    i: int,
    k: int,
)
    requires
        0 <= i <= k < supplied.len(),
        !declares(args, supplied[k].0),
    ensures
        unexpected_from(args, supplied, i).len() > 0,
    decreases k - i,
{
    if i < k {
        lemma_unexpected_is_listed(args, supplied, i + 1, k);
    }
}

/// A required argument that has no default and for which nothing is supplied
/// makes the resolution fail. It fails with `MissingArgument` and the name of
/// that argument where the workflow runs in the shell and every argument
/// declared before it has a value in order.
pub proof fn lemma_missing_argument_fails(
    w: WorkflowModel,
    supplied: Seq<(Seq<char>, Seq<char>)>,
    shell: Shell,
    k: int,
)
    requires
        0 <= k < w.arguments.len(),
        w.arguments[k].required,
        w.arguments[k].default_value is None,
        lookup(supplied, w.arguments[k].name) is None,
    ensures
        resolution(w, supplied, shell) is Err,
        compatible(w, shell) && (forall|j: int|
            0 <= j < k ==> argument_outcome(#[trigger] w.arguments[j], supplied) is Ok)
            ==> resolution(w, supplied, shell) == Err::<ExecutionModel, ErrorModel>(
            ErrorModel::MissingArgument(w.arguments[k].name),
        ),
{
    lemma_some_error_fails(w.arguments, supplied, 0, k);
    if forall|j: int| 0 <= j < k ==> argument_outcome(#[trigger] w.arguments[j], supplied) is Ok {
        lemma_first_error_wins(w.arguments, supplied, 0, k);
    }
}

/// A supplied name that no argument declares makes the resolution fail. It
/// fails with `ArgumentError` where the workflow runs in the shell and every
/// declared argument has a value in order.
pub proof fn lemma_unexpected_argument_fails(
    w: WorkflowModel,
    supplied: Seq<(Seq<char>, Seq<char>)>,
    shell: Shell,
    k: int,
)
    requires
        0 <= k < supplied.len(),
        !declares(w.arguments, supplied[k].0),
    ensures
        resolution(w, supplied, shell) is Err,
        compatible(w, shell) && resolve_from(w.arguments, supplied, 0) is Ok ==> resolution(
            w,
            supplied,
            shell,
        ) == Err::<ExecutionModel, ErrorModel>(
            unexpected_error(unexpected_from(w.arguments, supplied, 0)),
        ),
{
    lemma_unexpected_is_listed(w.arguments, supplied, 0, k);
}

/// In the command that a workflow resolves to for `bash` or `zsh`, every
/// value reads back as one word that is the value itself: the resolved
/// command is the template read part by part, and where the part at `n` is
/// the value of an argument, the resolved command holds there the quoted
/// value, which the shell reads as one word, the value. This holds of every
/// workflow, valid or not, and of every value.
pub proof fn lemma_resolved_values_read_back(
    w: WorkflowModel,
    supplied: Seq<(Seq<char>, Seq<char>)>,
    shell: Shell,
    n: int,
)
    requires
        shell == Shell::Bash || shell == Shell::Zsh,
        resolution(w, supplied, shell) is Ok,
        0 <= n < parts_from(w.command, resolution(w, supplied, shell)->Ok_0.arguments, 0).len(),
        parts_from(w.command, resolution(w, supplied, shell)->Ok_0.arguments, 0)[n] is Value,
    ensures
        ({
            let resolved = resolution(w, supplied, shell)->Ok_0;
            let parts = parts_from(w.command, resolved.arguments, 0);
            let k = parts[n]->Value_0;
            let start = rendered(parts.take(n), w.command, resolved.arguments, shell).len() as int;
            let end = start + posix_quoted(resolved.arguments[k].1).len();
            &&& resolved.resolved_command == substituted(w.command, resolved.arguments, shell)
            &&& 0 <= k < resolved.arguments.len()
            &&& end <= resolved.resolved_command.len()
            &&& resolved.resolved_command.subrange(start, end) == posix_quoted(
                resolved.arguments[k].1,
            )
            &&& word_read(resolved.resolved_command.subrange(start, end), 0, Quoting::Bare)
                == Some(resolved.arguments[k].1)
        }),
{
    let resolved = resolution(w, supplied, shell)->Ok_0;
    lemma_each_value_reads_back(w.command, resolved.arguments, shell, n);
}

} // verus!
