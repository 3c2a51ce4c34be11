use catan::history::viewer::{viewer_step, ViewerNotice, ViewerStep};

#[test]
fn viewer_moves_forward_and_back() {
    assert_eq!(viewer_step(0, 5, "n"), ViewerStep::Show(1));
    assert_eq!(viewer_step(3, 5, "next"), ViewerStep::Show(4));
    assert_eq!(viewer_step(3, 5, ""), ViewerStep::Show(4));
    assert_eq!(viewer_step(4, 5, "n"), ViewerStep::Show(4));
    assert_eq!(viewer_step(4, 5, ""), ViewerStep::Notice(ViewerNotice::LastTurn));
    assert_eq!(viewer_step(2, 5, "p"), ViewerStep::Show(1));
    assert_eq!(viewer_step(0, 5, "prev"), ViewerStep::Notice(ViewerNotice::FirstTurn));
}

#[test]
fn viewer_jumps() {
    assert_eq!(viewer_step(2, 5, "f"), ViewerStep::Show(0));
    assert_eq!(viewer_step(2, 5, "last"), ViewerStep::Show(4));
    assert_eq!(viewer_step(2, 5, "j 3"), ViewerStep::Show(3));
    assert_eq!(viewer_step(2, 5, "j +0"), ViewerStep::Show(0));
    assert_eq!(viewer_step(2, 5, "j 5"), ViewerStep::Notice(ViewerNotice::InvalidTurn(5)));
    assert_eq!(viewer_step(2, 5, "j x"), ViewerStep::Notice(ViewerNotice::ParseError));
    assert_eq!(viewer_step(2, 5, "j "), ViewerStep::Notice(ViewerNotice::ParseError));
    assert_eq!(
        viewer_step(2, 5, "j 99999999999999999999999"),
        ViewerStep::Notice(ViewerNotice::ParseError)
    );
}

#[test]
fn viewer_quits_and_refuses_unknown_commands() {
    assert_eq!(viewer_step(1, 2, "q"), ViewerStep::Quit);
    assert_eq!(viewer_step(1, 2, "quit"), ViewerStep::Quit);
    assert_eq!(viewer_step(1, 2, "exit"), ViewerStep::Quit);
    assert_eq!(viewer_step(1, 2, "jump"), ViewerStep::Notice(ViewerNotice::UnknownCommand));
    assert_eq!(viewer_step(1, 2, "x"), ViewerStep::Notice(ViewerNotice::UnknownCommand));
}
