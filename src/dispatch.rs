//! Classification of an invocation and choice of the one action it asks for.
use vstd::prelude::*;

verus! {

/// The word that selects the size report when it is the first argument.
pub open spec fn size_word() -> Seq<char> {
    seq!['s', 'i', 'z', 'e']
}

/// Which standard streams are attached to a file or pipe rather than to a
/// terminal.
#[derive(Clone, Copy, Debug, PartialEq, Eq, Structural)]
pub struct StreamMode {
    pub stdin_redirected: bool,
    pub stdout_redirected: bool,
}

/// Why an invocation is refused. Every one ends the process with status 1.
#[derive(Clone, Copy, Debug, PartialEq, Eq, Structural)]
pub enum UsageError {
    /// More than one argument, none of them the size word in first place.
    TooManyArguments,
    /// Standard input and standard output are both redirected.
    BothStreamsRedirected,
    /// A text argument was given while a stream is redirected.
    TextWithRedirection,
}

/// What the arguments ask for, before the streams are looked at.
#[derive(Clone, Debug)]
pub enum Invocation {
    /// `size` as first argument: report the size of the clipboard text.
    ShowSize,
    /// One argument: put that text on the clipboard.
    SetFromArgument(String),
    /// No argument.
    PlainInvocation,
}

/// The mathematical value of an `Invocation`.
pub enum InvocationModel {
    ShowSize,
    SetFromArgument(Seq<char>),
    PlainInvocation,
}

impl View for Invocation {
    type V = InvocationModel;

    open spec fn view(&self) -> InvocationModel {
        match self {
            Invocation::ShowSize => InvocationModel::ShowSize,
            Invocation::SetFromArgument(t) => InvocationModel::SetFromArgument(t@),
            Invocation::PlainInvocation => InvocationModel::PlainInvocation,
        }
    }
}

/// The work that one invocation performs.
#[derive(Clone, Debug)]
pub enum Action {
    /// Print the formatted byte length of the clipboard text.
    PrintSize,
    /// Write the clipboard text to standard output.
    CopyClipboardToStdout,
    /// Read all of standard input and put it on the clipboard.
    SetClipboardFromStdin,
    /// Put the given text on the clipboard.
    SetClipboardFromArgument(String),
}

/// The mathematical value of an `Action`.
pub enum ActionModel {
    PrintSize,
    CopyClipboardToStdout,
    SetClipboardFromStdin,
    SetClipboardFromArgument(Seq<char>),
}

impl View for Action {
    type V = ActionModel;

    open spec fn view(&self) -> ActionModel {
        match self {
            Action::PrintSize => ActionModel::PrintSize,
            Action::CopyClipboardToStdout => ActionModel::CopyClipboardToStdout,
            Action::SetClipboardFromStdin => ActionModel::SetClipboardFromStdin,
            Action::SetClipboardFromArgument(t) => ActionModel::SetClipboardFromArgument(t@),
        }
    }
}

/// The classification of the arguments that follow the program name:
/// the size word first wins over everything else, then more than one
/// argument is refused, then one argument is text for the clipboard.
pub open spec fn invocation_of(args: Seq<Seq<char>>) -> Result<InvocationModel, UsageError> {
    if args.len() > 0 && args[0] == size_word() {
        Ok(InvocationModel::ShowSize)
    } else if args.len() > 1 {
        Err(UsageError::TooManyArguments)
    } else if args.len() == 1 {
        Ok(InvocationModel::SetFromArgument(args[0]))
    } else {
        Ok(InvocationModel::PlainInvocation)
    }
}

/// The action for a classified invocation in a stream mode, rules taken in
/// order: both streams redirected is refused, a text argument with any
/// redirection is refused, a text argument is set, redirected input is set,
/// and otherwise the clipboard is copied out.
pub open spec fn action_of(inv: InvocationModel, mode: StreamMode) -> Result<ActionModel, UsageError> {
    match inv {
        InvocationModel::ShowSize => Ok(ActionModel::PrintSize),
        InvocationModel::SetFromArgument(t) => {
            if mode.stdin_redirected && mode.stdout_redirected {
                Err(UsageError::BothStreamsRedirected)
            } else if mode.stdin_redirected || mode.stdout_redirected {
                Err(UsageError::TextWithRedirection)
            } else {
                Ok(ActionModel::SetClipboardFromArgument(t))
            }
        },
        InvocationModel::PlainInvocation => {
            if mode.stdin_redirected && mode.stdout_redirected {
                Err(UsageError::BothStreamsRedirected)
            } else if mode.stdin_redirected {
                Ok(ActionModel::SetClipboardFromStdin)
            } else {
                Ok(ActionModel::CopyClipboardToStdout)
            }
        },
    }
}

/// The outcome of a whole invocation.
pub open spec fn decision(args: Seq<Seq<char>>, mode: StreamMode) -> Result<ActionModel, UsageError> {
    match invocation_of(args) {
        Ok(inv) => action_of(inv, mode),
        Err(e) => Err(e),
    }
}

/// The value of a result that holds an `Invocation`.
pub open spec fn invocation_result_view(r: Result<Invocation, UsageError>) -> Result<
    InvocationModel,
    UsageError,
> {
    match r {
        Ok(inv) => Ok(inv@),
        Err(e) => Err(e),
    }
}

/// The value of a result that holds an `Action`.
pub open spec fn action_result_view(r: Result<Action, UsageError>) -> Result<ActionModel, UsageError> {
    match r {
        Ok(a) => Ok(a@),
        Err(e) => Err(e),
    }
}

impl Invocation {
    /// Classifies the arguments that follow the program name.
    pub fn from_args(args: &Vec<String>) -> (r: Result<Invocation, UsageError>)
        ensures
            invocation_result_view(r) == invocation_of(args.deep_view()),
    {
        let word = String::from_str("size");
        proof {
            reveal_strlit("size");
            assert(word@ =~= size_word());
        }
        if args.len() > 0 && args[0] == word {
            Ok(Invocation::ShowSize)
        } else if args.len() > 1 {
            Err(UsageError::TooManyArguments)
        } else if args.len() == 1 {
            Ok(Invocation::SetFromArgument(args[0].clone()))
        } else {
            Ok(Invocation::PlainInvocation)
        }
    }

    /// Chooses the action for this invocation in the given stream mode.
    pub fn decide(&self, mode: StreamMode) -> (r: Result<Action, UsageError>)
        ensures
            action_result_view(r) == action_of(self@, mode),
    {
        match self {
            Invocation::ShowSize => Ok(Action::PrintSize),
            Invocation::SetFromArgument(t) => {
                if mode.stdin_redirected && mode.stdout_redirected {
                    Err(UsageError::BothStreamsRedirected)
                } else if mode.stdin_redirected || mode.stdout_redirected {
                    Err(UsageError::TextWithRedirection)
                } else {
                    Ok(Action::SetClipboardFromArgument(t.clone()))
                }
            },
            Invocation::PlainInvocation => {
                if mode.stdin_redirected && mode.stdout_redirected {
                    Err(UsageError::BothStreamsRedirected)
                } else if mode.stdin_redirected {
                    Ok(Action::SetClipboardFromStdin)
                } else {
                    Ok(Action::CopyClipboardToStdout)
                }
            },
        }
    }
}

/// Decides what one invocation does, from the arguments that follow the
/// program name and whether standard input and standard output are
/// redirected.
pub fn dispatch(args: &Vec<String>, stdin_redirected: bool, stdout_redirected: bool) -> (r: Result<
    Action,
    UsageError,
>)
    ensures
        action_result_view(r) == decision(
            args.deep_view(),
            StreamMode { stdin_redirected, stdout_redirected },
        ),
{
    let mode = StreamMode { stdin_redirected, stdout_redirected };
    match Invocation::from_args(args) {
        Ok(inv) => inv.decide(mode),
        Err(e) => Err(e),
    }
}

impl UsageError {
    /// The one-line diagnostic printed on standard error.
    pub fn message(&self) -> (r: String)
        ensures
            r@ == usage_message(*self),
    {
        match self {
            UsageError::TooManyArguments => String::from_str("Error: Too many arguments"),
            UsageError::BothStreamsRedirected => String::from_str(
                "Error: Both stdin and stdout are piped",
            ),
            UsageError::TextWithRedirection => String::from_str(
                "Error: Text argument and redirection specified together",
            ),
        }
    }
}

/// The diagnostic of each usage error.
pub open spec fn usage_message(e: UsageError) -> Seq<char> {
    match e {
        UsageError::TooManyArguments => "Error: Too many arguments"@,
        UsageError::BothStreamsRedirected => "Error: Both stdin and stdout are piped"@,
        UsageError::TextWithRedirection => "Error: Text argument and redirection specified together"@,
    }
}

/// With both standard input and standard output redirected, and no size
/// word in first place, the invocation is refused and no action is taken.
pub proof fn lemma_both_redirected_refused(args: Seq<Seq<char>>)
    requires
        !(args.len() > 0 && args[0] == size_word()),
    ensures
        decision(args, StreamMode { stdin_redirected: true, stdout_redirected: true }) is Err,
{
}

/// A text argument together with redirected standard input is refused, so
/// neither the clipboard is set nor the input read.
pub proof fn lemma_text_with_redirected_stdin_refused(text: Seq<char>, stdout_redirected: bool)
    requires
        text != size_word(),
    ensures
        decision(seq![text], StreamMode { stdin_redirected: true, stdout_redirected }) is Err,
{
}

/// Two or more arguments after the program name, the first of which is not
/// the size word, are refused as too many, whatever the streams.
pub proof fn lemma_too_many_arguments_refused(args: Seq<Seq<char>>, mode: StreamMode)
    requires
        args.len() >= 2,
        args[0] != size_word(),
    ensures
        decision(args, mode) == Err::<ActionModel, UsageError>(UsageError::TooManyArguments),
{
}

} // verus!
