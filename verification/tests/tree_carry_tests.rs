use cokacdir::batch::FileOutcome;
use cokacdir::transfer::{SftpTransfer, TransferDirection};
use cokacdir::tree_carry::{TreeCarry, WalkAction, WalkEntry, WalkInput};

fn s(t: &str) -> String {
    t.to_string()
}

fn file(name: &str) -> WalkEntry {
    WalkEntry { name: s(name), is_directory: false }
}

fn dir(name: &str) -> WalkEntry {
    WalkEntry { name: s(name), is_directory: true }
}

fn download() -> TreeCarry {
    TreeCarry::new(&SftpTransfer { direction: TransferDirection::RemoteToLocal, local: s("/l/d"), remote: s("/r/d") })
}

fn upload() -> TreeCarry {
    TreeCarry::new(&SftpTransfer { direction: TransferDirection::LocalToRemote, local: s("/l/d"), remote: s("/r/d/") })
}

#[test]
fn a_single_file_is_carried_as_it_is() {
    let mut walk = download();
    assert_eq!(walk.step(WalkInput::Start, false), WalkAction::List(s("/r/d")));
    assert_eq!(walk.step(WalkInput::ListFailed(s("not a directory")), false), WalkAction::Carry(s("/r/d"), s("/l/d")));
    assert!(!walk.is_finished());
    assert_eq!(walk.step(WalkInput::Carried(None), false), WalkAction::Finish(FileOutcome::Done));
    assert!(walk.is_finished());
    // asked again, the walk repeats itself
    assert_eq!(walk.step(WalkInput::Carried(Some(s("late"))), true), WalkAction::Finish(FileOutcome::Done));

    let mut walk = upload();
    assert_eq!(walk.step(WalkInput::Start, false), WalkAction::List(s("/l/d")));
    assert_eq!(walk.step(WalkInput::ListFailed(s("ENOTDIR")), false), WalkAction::Carry(s("/l/d"), s("/r/d/")));
    let failed = WalkAction::Finish(FileOutcome::Failed(s("denied")));
    assert_eq!(walk.step(WalkInput::Carried(Some(s("denied"))), false), failed);
    assert_eq!(walk.step(WalkInput::Carried(None), false), failed);
}

#[test]
fn a_directory_is_walked_in_the_order_of_its_listings() {
    let mut walk = download();
    walk.step(WalkInput::Start, false);
    assert_eq!(
        walk.step(WalkInput::Listed(vec![file("a"), dir("sub"), file("z")]), false),
        WalkAction::MakeDirectory(s("/l/d"))
    );
    assert_eq!(walk.step(WalkInput::DirectoryMade, false), WalkAction::Carry(s("/r/d/a"), s("/l/d/a")));
    assert_eq!(walk.step(WalkInput::Carried(None), false), WalkAction::MakeDirectory(s("/l/d/sub")));
    assert_eq!(walk.step(WalkInput::DirectoryMade, false), WalkAction::List(s("/r/d/sub")));
    assert_eq!(
        walk.step(WalkInput::Listed(vec![file("x"), file("y")]), false),
        WalkAction::Carry(s("/r/d/sub/x"), s("/l/d/sub/x"))
    );
    assert_eq!(walk.step(WalkInput::Carried(None), false), WalkAction::Carry(s("/r/d/sub/y"), s("/l/d/sub/y")));
    assert_eq!(walk.step(WalkInput::Carried(None), false), WalkAction::Carry(s("/r/d/z"), s("/l/d/z")));
    assert_eq!(walk.step(WalkInput::Carried(None), false), WalkAction::Finish(FileOutcome::Done));
}

#[test]
fn an_empty_directory_is_made_and_that_is_all() {
    let mut walk = upload();
    walk.step(WalkInput::Start, false);
    assert_eq!(walk.step(WalkInput::Listed(vec![]), false), WalkAction::MakeDirectory(s("/r/d/")));
    assert_eq!(walk.step(WalkInput::DirectoryMade, false), WalkAction::Finish(FileOutcome::Done));
    // an empty directory on the way
    let mut walk = upload();
    walk.step(WalkInput::Start, false);
    walk.step(WalkInput::Listed(vec![dir("e")]), false);
    assert_eq!(walk.step(WalkInput::DirectoryMade, false), WalkAction::MakeDirectory(s("/r/d/e")));
    assert_eq!(walk.step(WalkInput::DirectoryMade, false), WalkAction::List(s("/l/d/e")));
    assert_eq!(walk.step(WalkInput::Listed(vec![]), false), WalkAction::Finish(FileOutcome::Done));
}

#[test]
fn the_first_failure_ends_the_walk() {
    let mut walk = download();
    walk.step(WalkInput::Start, false);
    walk.step(WalkInput::Listed(vec![dir("sub"), file("z")]), false);
    walk.step(WalkInput::DirectoryMade, false);
    walk.step(WalkInput::DirectoryMade, false);
    assert_eq!(
        walk.step(WalkInput::ListFailed(s("denied")), false),
        WalkAction::Finish(FileOutcome::Failed(s("Failed to list '/r/d/sub': denied")))
    );
    let mut walk = upload();
    walk.step(WalkInput::Start, false);
    walk.step(WalkInput::Listed(vec![dir("sub")]), false);
    walk.step(WalkInput::DirectoryMade, false);
    walk.step(WalkInput::DirectoryMade, false);
    assert_eq!(
        walk.step(WalkInput::ListFailed(s("denied")), false),
        WalkAction::Finish(FileOutcome::Failed(s("Failed to read dir '/l/d/sub': denied")))
    );
    let mut walk = upload();
    walk.step(WalkInput::Start, false);
    walk.step(WalkInput::Listed(vec![file("a"), file("b")]), false);
    walk.step(WalkInput::DirectoryMade, false);
    assert_eq!(walk.step(WalkInput::Carried(Some(s("quota"))), false), WalkAction::Finish(FileOutcome::Failed(s("quota"))));
    // a report out of turn
    let mut walk = upload();
    assert_eq!(
        walk.step(WalkInput::DirectoryMade, false),
        WalkAction::Finish(FileOutcome::Failed(s("Unexpected event")))
    );
}

#[test]
fn a_cancelled_walk_asks_for_nothing_more() {
    let cut = WalkAction::Finish(FileOutcome::Interrupted);
    assert_eq!(download().step(WalkInput::Start, true), cut);
    let mut walk = download();
    walk.step(WalkInput::Start, false);
    assert_eq!(walk.step(WalkInput::Listed(vec![file("a")]), true), cut);
    assert_eq!(walk.step(WalkInput::Start, false), cut);
    let mut walk = download();
    walk.step(WalkInput::Start, false);
    walk.step(WalkInput::Listed(vec![file("a"), file("b")]), false);
    walk.step(WalkInput::DirectoryMade, false);
    assert_eq!(walk.step(WalkInput::Carried(None), true), cut);
    let mut walk = download();
    walk.step(WalkInput::Start, false);
    walk.step(WalkInput::Listed(vec![file("a")]), false);
    walk.step(WalkInput::DirectoryMade, false);
    assert_eq!(walk.step(WalkInput::Carried(Some(s("reset"))), true), cut);
    // nothing was left to do: the walk is done
    let mut walk = download();
    walk.step(WalkInput::Start, false);
    walk.step(WalkInput::Listed(vec![file("a")]), false);
    walk.step(WalkInput::DirectoryMade, false);
    assert_eq!(walk.step(WalkInput::Carried(None), true), WalkAction::Finish(FileOutcome::Done));
}
