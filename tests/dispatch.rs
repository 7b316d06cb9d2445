use cb::dispatch::{dispatch, Action, Invocation, StreamMode, UsageError};

fn args(words: &[&str]) -> Vec<String> {
    words.iter().map(|w| w.to_string()).collect()
}

#[test]
fn size_word_wins_over_everything() {
    for (i, o) in [(false, false), (true, false), (false, true), (true, true)] {
        assert!(matches!(dispatch(&args(&["size"]), i, o), Ok(Action::PrintSize)));
        assert!(matches!(dispatch(&args(&["size", "x", "y"]), i, o), Ok(Action::PrintSize)));
    }
}

#[test]
fn both_streams_redirected_is_refused() {
    assert!(matches!(dispatch(&args(&[]), true, true), Err(UsageError::BothStreamsRedirected)));
    assert!(matches!(
        dispatch(&args(&["hello"]), true, true),
        Err(UsageError::BothStreamsRedirected)
    ));
}

#[test]
fn text_with_redirected_stdin_is_refused() {
    assert!(matches!(
        dispatch(&args(&["hello"]), true, false),
        Err(UsageError::TextWithRedirection)
    ));
    assert!(matches!(
        dispatch(&args(&["hello"]), false, true),
        Err(UsageError::TextWithRedirection)
    ));
}

#[test]
fn too_many_arguments_are_refused() {
    for (i, o) in [(false, false), (true, false), (false, true), (true, true)] {
        assert!(matches!(dispatch(&args(&["a", "b"]), i, o), Err(UsageError::TooManyArguments)));
        assert!(matches!(
            dispatch(&args(&["a", "b", "c"]), i, o),
            Err(UsageError::TooManyArguments)
        ));
        assert!(matches!(
            dispatch(&args(&["a", "size"]), i, o),
            Err(UsageError::TooManyArguments)
        ));
    }
}

#[test]
fn text_argument_is_set_on_terminal() {
    match dispatch(&args(&["hello world"]), false, false) {
        Ok(Action::SetClipboardFromArgument(t)) => assert_eq!(t, "hello world"),
        other => panic!("unexpected {:?}", other),
    }
}

#[test]
fn redirected_stdin_sets_clipboard() {
    assert!(matches!(dispatch(&args(&[]), true, false), Ok(Action::SetClipboardFromStdin)));
}

#[test]
fn plain_invocation_copies_clipboard_out() {
    assert!(matches!(dispatch(&args(&[]), false, false), Ok(Action::CopyClipboardToStdout)));
    assert!(matches!(dispatch(&args(&[]), false, true), Ok(Action::CopyClipboardToStdout)));
}

#[test]
fn classification_before_streams() {
    assert!(matches!(Invocation::from_args(&args(&[])), Ok(Invocation::PlainInvocation)));
    assert!(matches!(Invocation::from_args(&args(&["size"])), Ok(Invocation::ShowSize)));
    assert!(matches!(Invocation::from_args(&args(&["sizes"])), Ok(Invocation::SetFromArgument(_))));
    assert!(matches!(
        Invocation::from_args(&args(&["x", "y"])),
        Err(UsageError::TooManyArguments)
    ));
    let mode = StreamMode { stdin_redirected: false, stdout_redirected: true };
    assert!(matches!(Invocation::ShowSize.decide(mode), Ok(Action::PrintSize)));
    assert!(matches!(
        Invocation::PlainInvocation.decide(mode),
        Ok(Action::CopyClipboardToStdout)
    ));
}

#[test]
fn usage_messages() {
    assert_eq!(UsageError::TooManyArguments.message(), "Error: Too many arguments");
    assert_eq!(
        UsageError::BothStreamsRedirected.message(),
        "Error: Both stdin and stdout are piped"
    );
    assert_eq!(
        UsageError::TextWithRedirection.message(),
        "Error: Text argument and redirection specified together"
    );
}
