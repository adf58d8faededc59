//! Resolving a workflow for a shell: the arguments are settled and checked,
//! and their quoted values take the place of the placeholders.

use vstd::prelude::*;
use crate::outside::{
    all_groups, debug_format, first_group, group_in_match, regex_all_groups,
};
use crate::text::{clone_pairs, find_value, joined_text, opt_text, owned, pairs, texts};
use crate::time::TimeSpan;
use crate::workflows::environment::{
    common_variables, gather_from, names_found, names_in, relevant_variables, with_variable,
};
use crate::workflows::escape::{escape_for, escaped};
use crate::workflows::resolution::{
    after, resolution, resolve_from, resolved_values, settled, substitution, unexpected_from,
    value_for,
};
use crate::workflows::substitution::{substitute, substituted};
use crate::workflows::validation::is_declared;
use crate::workflows::values::{check_value, fault_of, value_fault};
use crate::workflows::{
    ErrorModel, Shell, Workflow, WorkflowArgument, WorkflowError, WorkflowModel, argument_models,
};

verus! {

/// The pattern of a placeholder that was left in a command: two opening
/// braces, one or more characters that are no closing brace, two closing
/// braces.
pub const UNRESOLVED_PATTERN: &'static str = r"\{\{([^}]+)\}\}";

/// The number of the group that takes the name in `UNRESOLVED_PATTERN` and in
/// `VARIABLE_PATTERN`.
pub const NAME_GROUP: usize = 1;

/// The pattern of a variable of the environment that a command names: a
/// dollar sign, then an upper-case letter or an underscore, then upper-case
/// letters, digits and underscores.
pub const VARIABLE_PATTERN: &'static str = r"\$([A-Z_][A-Z0-9_]*)";

/// Resolves workflows for one shell, in one environment.
#[derive(Debug)]
pub struct WorkflowExecutor {
    current_shell: Shell,
    environment: Vec<(String, String)>,
}

/// A workflow that was resolved for a shell.
#[derive(Debug)]
pub struct WorkflowExecution {
    pub workflow: Workflow,
    /// The value that each declared argument took, in the order of the
    /// declarations.
    pub arguments: Vec<(String, String)>,
    pub resolved_command: String,
    pub shell: Shell,
}

/// What a `WorkflowExecution` holds, as mathematical values.
pub struct ExecutionModel {
    pub workflow: WorkflowModel,
    pub arguments: Seq<(Seq<char>, Seq<char>)>,
    pub resolved_command: Seq<char>,
    pub shell: Shell,
}

impl View for WorkflowExecution {
    type V = ExecutionModel;

    open spec fn view(&self) -> ExecutionModel {
        ExecutionModel {
            workflow: self.workflow@,
            arguments: pairs(self.arguments@),
            resolved_command: self.resolved_command@,
            shell: self.shell,
        }
    }
}

/// What a command wrote and how it ended.
#[derive(Debug)]
pub struct CommandOutput {
    pub stdout: String,
    pub stderr: String,
    pub exit_code: i32,
}

/// The outcome of running a resolved workflow.
#[derive(Debug)]
pub struct WorkflowExecutionResult {
    pub workflow_name: String,
    pub command: String,
    pub output: CommandOutput,
    pub execution_time: TimeSpan,
    pub success: bool,
}

/// What running a resolved workflow would do.
#[derive(Debug)]
pub struct WorkflowDryRun {
    pub workflow_name: String,
    pub original_command: String,
    pub resolved_command: String,
    pub arguments: Vec<(String, String)>,
    pub shell: Shell,
    /// Variables of the environment that bear on the command, each once.
    pub environment_vars: Vec<(String, String)>,
}

/// The view of a list of pairs that may have failed.
pub open spec fn values_of(
    r: Result<Vec<(String, String)>, WorkflowError>,
) -> Result<Seq<(Seq<char>, Seq<char>)>, ErrorModel> {
    match r {
        Ok(v) => Ok(pairs(v@)),
        Err(e) => Err(e@),
    }
}

/// The view of a text that may have failed.
pub open spec fn text_of(r: Result<String, WorkflowError>) -> Result<Seq<char>, ErrorModel> {
    match r {
        Ok(t) => Ok(t@),
        Err(e) => Err(e@),
    }
}

/// The view of an execution that may have failed.
pub open spec fn execution_of(
    r: Result<WorkflowExecution, WorkflowError>,
) -> Result<ExecutionModel, ErrorModel> {
    match r {
        Ok(x) => Ok(x@),
        Err(e) => Err(e@),
    }
}

/// The value that an argument takes, before it is checked.
pub fn take_value(
    arg_def: &WorkflowArgument,
    supplied: &Vec<(String, String)>,
) -> (value: Option<String>)
    ensures
        opt_text(value) == value_for(arg_def@, pairs(supplied@)),
{
    match find_value(supplied, arg_def.name.as_str()) {
        Some(v) => Some(v.clone()),
        None => match &arg_def.default_value {
            Some(d) => Some(d.clone()),
            None => if arg_def.required {
                None
            } else {
                let empty = String::new();
                assert(empty@ =~= Seq::<char>::empty());
                Some(empty)
            },
        },
    }
}

/// The supplied names that no argument declares, in the order in which they
/// were supplied.
pub fn unexpected_arguments(
    declared: &Vec<WorkflowArgument>,
    supplied: &Vec<(String, String)>,
) -> (names: Vec<String>)
    ensures
        texts(names@) == unexpected_from(argument_models(declared@), pairs(supplied@), 0),
{
    let mut names: Vec<String> = Vec::new();
    let mut i: usize = 0;
    while i < supplied.len()
        invariant
            i <= supplied.len(),
            texts(names@) + unexpected_from(
                argument_models(declared@),
                pairs(supplied@),
                i as int,
            ) == unexpected_from(argument_models(declared@), pairs(supplied@), 0),
        decreases supplied.len() - i,
    {
        let ghost before = texts(names@);
        let ghost rest = unexpected_from(argument_models(declared@), pairs(supplied@), i + 1);
        if !is_declared(declared, supplied[i].0.as_str()) {
            names.push(supplied[i].0.clone());
            assert(texts(names@) =~= before.push(supplied[i as int].0@));
            assert(before.push(supplied[i as int].0@) + rest =~= before + (seq![
                supplied[i as int].0@,
            ] + rest));
        }
        i += 1;
    }
    assert(texts(names@) + Seq::<Seq<char>>::empty() =~= texts(names@));
    names
}

/// The error that lists supplied names that no argument declares, given the
/// list as a text.
pub fn unexpected(listed: &str) -> (e: WorkflowError)
    ensures
        e@ == ErrorModel::ArgumentError("Unexpected arguments: "@ + listed@),
{
    WorkflowError::ArgumentError(joined_text("Unexpected arguments: ", listed))
}

/// A command after substitution, given what a search for a placeholder in it
/// found: a placeholder that is left and has a name is an error.
pub fn settle(
    text: String,
    found: Option<Option<Option<String>>>,
) -> (r: Result<String, WorkflowError>)
    ensures
        text_of(r) == settled(text@, group_in_match(found)),
{
    match found {
        Some(Some(Some(name))) => Err(
            WorkflowError::ArgumentError(joined_text("Unresolved placeholder: ", name.as_str())),
        ),
        _ => Ok(text),
    }
}

impl WorkflowExecutor {
    /// The shell that workflows are resolved for.
    pub closed spec fn shell(&self) -> Shell {
        self.current_shell
    }

    /// The variables of the environment, as pairs of name and value.
    pub closed spec fn environment(&self) -> Seq<(Seq<char>, Seq<char>)> {
        pairs(self.environment@)
    }

    /// An executor for `shell` with the given variables of the environment.
    pub fn new(shell: Shell, environment: Vec<(String, String)>) -> (executor: Self)
        ensures
            executor.shell() == shell,
            executor.environment() == pairs(environment@),
    {
        WorkflowExecutor { current_shell: shell, environment }
    }

    /// The shell that workflows are resolved for.
    pub fn current_shell(&self) -> (shell: Shell)
        ensures
            shell == self.shell(),
    {
        self.current_shell
    }

    /// A value as it is put into a command for the shell of this executor.
    pub fn escape_shell_value(&self, value: &str) -> (out: String)
        ensures
            out@ == escaped(value@, self.shell()),
    {
        escape_for(self.current_shell, value)
    }

    /// Checks the value that an argument is to take.
    pub fn validate_argument_value(
        &self,
        arg_def: &WorkflowArgument,
        value: &str,
    ) -> (r: Result<(), WorkflowError>)
        ensures
            fault_of(r) == value_fault(arg_def@, value@),
    {
        check_value(arg_def, value)
    }

    /// Settles the value of every declared argument and checks it, then
    /// refuses supplied names that no argument declares.
    pub fn validate_and_resolve_arguments(
        &self,
        workflow: &Workflow,
        arguments: &Vec<(String, String)>,
    ) -> (r: Result<Vec<(String, String)>, WorkflowError>)
        ensures
            values_of(r) == resolved_values(workflow@.arguments, pairs(arguments@)),
    {
        let ghost args = workflow@.arguments;
        let ghost supplied = pairs(arguments@);
        let mut resolved: Vec<(String, String)> = Vec::new();
        let mut i: usize = 0;
        while i < workflow.arguments.len()
            invariant
                i <= workflow.arguments.len(),
                args == workflow@.arguments,
                supplied == pairs(arguments@),
                after(pairs(resolved@), resolve_from(args, supplied, i as int)) == resolve_from(
                    args,
                    supplied,
                    0,
                ),
            decreases workflow.arguments.len() - i,
        {
            let arg_def = &workflow.arguments[i];
            assert(arg_def@ == args[i as int]);
            let ghost before = pairs(resolved@);
            let ghost rest = resolve_from(args, supplied, i + 1);
            match take_value(arg_def, arguments) {
                None => {
                    return Err(WorkflowError::MissingArgument(arg_def.name.clone()));
                },
                Some(value) => {
                    match check_value(arg_def, value.as_str()) {
                        Err(e) => {
                            return Err(e);
                        },
                        Ok(_) => {},
                    }
                    resolved.push((arg_def.name.clone(), value));
                    assert(pairs(resolved@) =~= before.push((arg_def@.name, value@)));
                    assert(match rest {
                        Ok(r) => before.push((arg_def@.name, value@)) + r =~= before + (seq![
                            (arg_def@.name, value@),
                        ] + r),
                        Err(_) => true,
                    });
                },
            }
            i += 1;
        }
        assert(pairs(resolved@) + Seq::<(Seq<char>, Seq<char>)>::empty() =~= pairs(resolved@));
        let extra = unexpected_arguments(&workflow.arguments, arguments);
        if extra.len() > 0 {
            let listed = debug_format(&extra);
            return Err(unexpected(listed.as_str()));
        }
        Ok(resolved)
    }

    /// Puts the quoted value of every argument wherever its placeholder stands
    /// in the template; the values themselves are not read for placeholders.
    pub fn substitute_values(
        &self,
        command: &str,
        arguments: &Vec<(String, String)>,
    ) -> (out: String)
        ensures
            out@ == substituted(command@, pairs(arguments@), self.shell()),
    {
        substitute(command, arguments, self.current_shell)
    }

    /// Puts the quoted values in the place of the placeholders and refuses a
    /// command in which a placeholder is left.
    pub fn substitute_arguments(
        &self,
        command: &str,
        arguments: &Vec<(String, String)>,
    ) -> (r: Result<String, WorkflowError>)
        ensures
            text_of(r) == substitution(command@, pairs(arguments@), self.shell()),
    {
        let text = self.substitute_values(command, arguments);
        let found = first_group(UNRESOLVED_PATTERN, NAME_GROUP, text.as_str());
        settle(text, found)
    }

    /// Resolves a workflow for the shell of this executor.
    pub fn prepare_execution(
        &self,
        workflow: &Workflow,
        arguments: Vec<(String, String)>,
    ) -> (r: Result<WorkflowExecution, WorkflowError>)
        ensures
            execution_of(r) == resolution(workflow@, pairs(arguments@), self.shell()),
    {
        if !workflow.is_compatible_with_shell(&self.current_shell) {
            return Err(WorkflowError::UnsupportedShell(self.current_shell));
        }
        let resolved = match self.validate_and_resolve_arguments(workflow, &arguments) {
            Ok(values) => values,
            Err(e) => {
                return Err(e);
            },
        };
        let resolved_command = match self.substitute_arguments(
            workflow.command.as_str(),
            &resolved,
        ) {
            Ok(text) => text,
            Err(e) => {
                return Err(e);
            },
        };
        Ok(
            WorkflowExecution {
                workflow: workflow.clone(),
                arguments: resolved,
                resolved_command,
                shell: self.current_shell,
            },
        )
    }

    /// Adds a variable and its value in the environment to `found`, unless
    /// the environment does not hold it or `found` holds it already.
    pub fn add_variable(&self, found: &mut Vec<(String, String)>, name: &str)
        ensures
            pairs(final(found)@) == with_variable(self.environment(), pairs(old(found)@), name@),
    {
        match find_value(&self.environment, name) {
            Some(value) => {
                if find_value(found, name).is_none() {
                    found.push((owned(name), value.clone()));
                    assert(pairs(found@) =~= pairs(old(found)@).push((name@, value@)));
                }
            },
            None => {},
        }
    }

    /// The variables of the environment that bear on a command that names
    /// the variables `referenced`.
    pub fn relevant_variables(&self, referenced: &Vec<String>) -> (found: Vec<(String, String)>)
        ensures
            pairs(found@) == relevant_variables(self.environment(), texts(referenced@)),
    {
        let mut found: Vec<(String, String)> = Vec::new();
        assert(pairs(found@) =~= Seq::<(Seq<char>, Seq<char>)>::empty());
        self.add_variable(&mut found, "PATH");
        self.add_variable(&mut found, "HOME");
        self.add_variable(&mut found, "USER");
        self.add_variable(&mut found, "PWD");
        self.add_variable(&mut found, "SHELL");
        self.add_variable(&mut found, "TERM");
        self.add_variable(&mut found, "LANG");
        self.add_variable(&mut found, "LC_ALL");
        self.add_variable(&mut found, "EDITOR");
        self.add_variable(&mut found, "PAGER");
        proof {
            reveal_with_fuel(gather_from, 11);
            assert(pairs(found@) == gather_from(
                self.environment(),
                common_variables(),
                0,
                Seq::empty(),
            ));
        }
        let mut i: usize = 0;
        while i < referenced.len()
            invariant
                i <= referenced.len(),
                gather_from(self.environment(), texts(referenced@), i as int, pairs(found@))
                    == relevant_variables(self.environment(), texts(referenced@)),
            decreases referenced.len() - i,
        {
            self.add_variable(&mut found, referenced[i].as_str());
            i += 1;
        }
        found
    }

    /// The variables of the environment that bear on a command: the common
    /// ones and those that the command names with a dollar sign.
    pub fn get_relevant_env_vars(&self, command: &str) -> (found: Vec<(String, String)>)
        ensures
            pairs(found@) == relevant_variables(
                self.environment(),
                names_found(regex_all_groups(VARIABLE_PATTERN@, NAME_GROUP as nat, command@)),
            ),
    {
        let names = names_in(all_groups(VARIABLE_PATTERN, NAME_GROUP, command));
        self.relevant_variables(&names)
    }

    /// What running a resolved workflow would do: the command before and
    /// after resolution, the values of the arguments, the shell, and the
    /// variables of the environment that bear on the resolved command. The
    /// variables are shown only; none is put into the command.
    pub fn dry_run(&self, execution: &WorkflowExecution) -> (shown: WorkflowDryRun)
        ensures
            shown.workflow_name@ == execution@.workflow.name,
            shown.original_command@ == execution@.workflow.command,
            shown.resolved_command@ == execution@.resolved_command,
            pairs(shown.arguments@) == execution@.arguments,
            shown.shell == execution@.shell,
            pairs(shown.environment_vars@) == relevant_variables(
                self.environment(),
                names_found(
                    regex_all_groups(
                        VARIABLE_PATTERN@,
                        NAME_GROUP as nat,
                        execution@.resolved_command,
                    ),
                ),
            ),
    {
        WorkflowDryRun {
            workflow_name: execution.workflow.name.clone(),
            original_command: execution.workflow.command.clone(),
            resolved_command: execution.resolved_command.clone(),
            arguments: clone_pairs(&execution.arguments),
            shell: execution.shell,
            environment_vars: self.get_relevant_env_vars(execution.resolved_command.as_str()),
        }
    }

    /// The program to start for a resolved workflow and what to hand it: the
    /// shell of this executor, `-c`, and the resolved command.
    pub fn command_line(&self, execution: &WorkflowExecution) -> (line: (String, Vec<String>))
        ensures
            line.0@ == self.shell().name(),
            texts(line.1@) == seq!["-c"@, execution@.resolved_command],
    {
        let mut handed: Vec<String> = Vec::new();
        handed.push(owned("-c"));
        handed.push(execution.resolved_command.clone());
        assert(texts(handed@) =~= seq!["-c"@, execution@.resolved_command]);
        (self.current_shell.to_string(), handed)
    }

    /// The outcome of a run of a resolved workflow that wrote `output` and
    /// took `execution_time`. A run that came back counts as a success.
    pub fn execution_result(
        &self,
        execution: &WorkflowExecution,
        output: CommandOutput,
        execution_time: TimeSpan,
    ) -> (outcome: WorkflowExecutionResult)
        ensures
            outcome.workflow_name@ == execution@.workflow.name,
            outcome.command@ == execution@.resolved_command,
            outcome.output == output,
            outcome.execution_time == execution_time,
            outcome.success,
    {
        WorkflowExecutionResult {
            workflow_name: execution.workflow.name.clone(),
            command: execution.resolved_command.clone(),
            output,
            execution_time,
            success: true,
        }
    }
}

/// Resolving the same workflow with the same arguments for the same shell
/// gives the same result every time: two outcomes of `prepare_execution` on
/// the same inputs are both errors, and then the same error, or both
/// executions, and then with the same resolved command, character by
/// character.
pub proof fn lemma_resolution_repeats(
    executor: WorkflowExecutor,
    workflow: Workflow,
    arguments: Vec<(String, String)>,
    first: Result<WorkflowExecution, WorkflowError>,
    second: Result<WorkflowExecution, WorkflowError>,
)
    requires
        execution_of(first) == resolution(workflow@, pairs(arguments@), executor.shell()),
        execution_of(second) == resolution(workflow@, pairs(arguments@), executor.shell()),
    ensures
        execution_of(first) == execution_of(second),
        first is Ok <==> second is Ok,
        first is Ok ==> first->Ok_0.resolved_command@ == second->Ok_0.resolved_command@,
        first is Err ==> first->Err_0@ == second->Err_0@,
{
}

} // verus!
