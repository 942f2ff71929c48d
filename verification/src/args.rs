use vstd::prelude::*;
use crate::config::{CommandArgsView, TaskCommandArgs, TaskConfig, TaskConfigView};
use crate::error::{BuildError, TasksBuilderError};
use crate::items::{copy_vec, extend_copies, views};

verus! {

#[verifier::external_type_specification]
#[verifier::external_body]
pub struct ExShellParseError(shell_words::ParseError);

/// The words into which `shell_words::split` cuts a line, or `None` where it
/// reports an unmatched quote.
pub uninterp spec fn shell_split(line: Seq<char>) -> Option<Seq<Seq<char>>>;

/// Calls `shell_words::split`. Claimed: the call returns the words that
/// `shell_split` names for the line, or an error exactly where that name is
/// `None`. How the line is cut (quotes, escapes, comments) is left unsaid.
#[verifier::external_body]
fn shell_words_split(line: &str) -> (r: Result<Vec<String>, shell_words::ParseError>)
    ensures
        r matches Ok(words) ==> shell_split(line@) == Some(views(words@)),
        r is Err ==> shell_split(line@) is None,
{
    shell_words::split(line)
}

/// Cuts a command line into its words, as a shell would without expansions.
pub fn split_args(line: &String) -> (r: Result<Vec<String>, TasksBuilderError>)
    ensures
        r matches Ok(words) ==> shell_split(line@) == Some(views(words@)),
        r matches Err(e) ==> shell_split(line@) is None && e@ == BuildError::ArgsSplit(line@),
{
    match shell_words_split(line.as_str()) {
        Ok(words) => Ok(words),
        Err(_) => Err(TasksBuilderError::ArgsSplit { line: line.clone() }),
    }
}

/// The words of a command or its arguments, or the line that failed to split.
pub open spec fn command_words(a: CommandArgsView) -> Result<Seq<Seq<char>>, Seq<char>> {
    match a {
        CommandArgsView::Unset => Ok(Seq::empty()),
        CommandArgsView::String(s) => match shell_split(s) {
            Some(w) => Ok(w),
            None => Err(s),
        },
        CommandArgsView::List(l) => Ok(l),
    }
}

/// The first word of the command is the program; its other words come
/// before the arguments.
pub open spec fn split_command(cmd_words: Seq<Seq<char>>, arg_words: Seq<Seq<char>>) -> (Option<Seq<char>>, Seq<Seq<char>>) {
    if cmd_words.len() == 0 {
        (None, arg_words)
    } else {
        (Some(cmd_words[0]), cmd_words.drop_first() + arg_words)
    }
}

/// The program and arguments that a task configuration gives, or the line
/// that failed to split (the command's before the arguments').
pub open spec fn config_command_and_args(c: TaskConfigView) -> Result<(Option<Seq<char>>, Seq<Seq<char>>), Seq<char>> {
    match command_words(c.command) {
        Err(line) => Err(line),
        Ok(cw) => match command_words(c.args) {
            Err(line) => Err(line),
            Ok(aw) => Ok(split_command(cw, aw)),
        },
    }
}

fn words_of(a: &TaskCommandArgs) -> (r: Result<Vec<String>, TasksBuilderError>)
    ensures
        r matches Ok(w) ==> command_words(a@) == Ok::<Seq<Seq<char>>, Seq<char>>(views(w@)),
        r matches Err(e) ==> (command_words(a@) matches Err(line) && e@ == BuildError::ArgsSplit(line)),
{
    match a {
        TaskCommandArgs::Unset => {
            let v: Vec<String> = Vec::new();
            assert(views(v@) =~= Seq::<Seq<char>>::empty());
            Ok(v)
        },
        TaskCommandArgs::String(s) => split_args(s),
        TaskCommandArgs::List(l) => Ok(copy_vec(l)),
    }
}

/// Takes the program from the words of a command and puts the rest of them
/// before the words of the arguments.
pub fn split_command_words(cmd_list: Vec<String>, arg_list: Vec<String>) -> (r: (Option<String>, Vec<String>))
    ensures
        split_command(views(cmd_list@), views(arg_list@)).0 == (match r.0 {
            Some(c) => Some(c@),
            None => None::<Seq<char>>,
        }),
        split_command(views(cmd_list@), views(arg_list@)).1 == views(r.1@),
{
    let mut args: Vec<String> = Vec::new();
    let mut command: Option<String> = None;
    if cmd_list.len() > 0 {
        command = Some(cmd_list[0].clone());
        let mut i: usize = 1;
        while i < cmd_list.len()
            invariant
                1 <= i <= cmd_list.len(),
                views(args@) == views(cmd_list@).subrange(1, i as int),
            decreases cmd_list.len() - i,
        {
            let ghost prev = args@;
            args.push(cmd_list[i].clone());
            assert(views(args@) =~= views(prev).push(cmd_list@[i as int]@));
            assert(views(args@) =~= views(cmd_list@).subrange(1, i as int + 1));
            i += 1;
        }
        assert(views(cmd_list@).subrange(1, cmd_list.len() as int) =~= views(cmd_list@).drop_first());
    } else {
        assert(views(args@) =~= Seq::<Seq<char>>::empty());
    }
    extend_copies(&mut args, &arg_list);
    proof {
        if cmd_list.len() == 0 {
            assert(views(args@) =~= views(arg_list@));
        }
    }
    (command, args)
}

/// The program and the arguments of a task configuration.
pub fn get_command_and_args(config: &TaskConfig) -> (r: Result<(Option<String>, Vec<String>), TasksBuilderError>)
    ensures
        r matches Ok(ca) ==> (config_command_and_args(config@) matches Ok(s)
            && s.0 == (match ca.0 {
                Some(c) => Some(c@),
                None => None::<Seq<char>>,
            }) && s.1 == views(ca.1@)),
        r matches Err(e) ==> (config_command_and_args(config@) matches Err(line) && e@ == BuildError::ArgsSplit(line)),
{
    let cmd_list = words_of(&config.command)?;
    let arg_list = words_of(&config.args)?;
    Ok(split_command_words(cmd_list, arg_list))
}

} // verus!
