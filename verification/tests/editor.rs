use tags::editor::{choose_editor, EditAction, EditEvent, EditSession, Error, Exit};

fn started() -> EditSession {
    EditSession::start("vi".to_string(), "{}".to_string())
}

fn created() -> EditSession {
    started().step(EditEvent::Created(Ok(Some("/tmp/tags-abc".to_string()))))
}

fn running() -> EditSession {
    created().step(EditEvent::Written(Ok(()))).step(EditEvent::Launched(Ok(())))
}

#[test]
fn editor_is_visual_then_editor_then_vi() {
    assert_eq!(choose_editor(Some("emacs".to_string()), Some("nano".to_string())), "emacs");
    assert_eq!(choose_editor(None, Some("nano".to_string())), "nano");
    assert_eq!(choose_editor(Some("emacs".to_string()), None), "emacs");
    assert_eq!(choose_editor(None, None), "vi");
    assert_eq!(choose_editor(Some(String::new()), Some("nano".to_string())), "");
}

#[test]
fn session_goes_through_every_step_when_all_goes_well() {
    let session = started();
    assert_eq!(
        session.action(),
        EditAction::CreateFile { prefix: "tags-".to_string(), random: 10 }
    );
    let session = session.step(EditEvent::Created(Ok(Some("/tmp/tags-abc".to_string()))));
    assert_eq!(session.action(), EditAction::Write { content: "{}".to_string() });
    let session = session.step(EditEvent::Written(Ok(())));
    assert_eq!(
        session.action(),
        EditAction::Launch { editor: "vi".to_string(), path: "/tmp/tags-abc".to_string() }
    );
    let session = session.step(EditEvent::Launched(Ok(())));
    assert_eq!(session, EditSession::EditorRunning);
    assert_eq!(session.action(), EditAction::Wait);
    let session = session.step(EditEvent::Exited(Ok(Exit { success: true, code: Some(0) })));
    assert_eq!(session.action(), EditAction::Read);
    let session = session.step(EditEvent::Read(Ok("{\"year\": 1}".to_string())));
    assert_eq!(session.action(), EditAction::Remove);
    let session = session.step(EditEvent::Removed);
    assert_eq!(session, EditSession::ReadBack("{\"year\": 1}".to_string()));
    assert_eq!(session.action(), EditAction::Finish(Ok("{\"year\": 1}".to_string())));
}

#[test]
fn editor_that_exits_with_status_one_aborts_without_reading() {
    let session = running().step(EditEvent::Exited(Ok(Exit { success: false, code: Some(1) })));
    assert_eq!(session.action(), EditAction::Remove);
    let session = session.step(EditEvent::Removed);
    assert_eq!(session, EditSession::Aborted(Error::NonZeroExitStatus(Some(1))));
    assert_eq!(session.action(), EditAction::Finish(Err(Error::NonZeroExitStatus(Some(1)))));
}

#[test]
fn editor_killed_by_a_signal_aborts_without_a_code() {
    let session = running()
        .step(EditEvent::Exited(Ok(Exit { success: false, code: None })))
        .step(EditEvent::Removed);
    assert_eq!(session.action(), EditAction::Finish(Err(Error::NonZeroExitStatus(None))));
}

#[test]
fn file_that_cannot_be_created_aborts_at_once() {
    let session = started().step(EditEvent::Created(Err("no space".to_string())));
    assert_eq!(session.action(), EditAction::Finish(Err(Error::IoError("no space".to_string()))));
}

#[test]
fn failed_write_removes_the_file_and_aborts() {
    let session = created().step(EditEvent::Written(Err("disk full".to_string())));
    assert_eq!(session.action(), EditAction::Remove);
    let session = session.step(EditEvent::Removed);
    assert_eq!(session.action(), EditAction::Finish(Err(Error::IoError("disk full".to_string()))));
}

#[test]
fn path_that_is_not_text_is_a_path_error() {
    let session = started().step(EditEvent::Created(Ok(None)));
    assert_eq!(session.action(), EditAction::Write { content: "{}".to_string() });
    let session = session.step(EditEvent::Written(Ok(())));
    assert_eq!(session.action(), EditAction::Remove);
    let session = session.step(EditEvent::Removed);
    assert_eq!(session.action(), EditAction::Finish(Err(Error::PathError)));
}

#[test]
fn write_error_comes_before_path_error() {
    let session = started()
        .step(EditEvent::Created(Ok(None)))
        .step(EditEvent::Written(Err("w".to_string())))
        .step(EditEvent::Removed);
    assert_eq!(session.action(), EditAction::Finish(Err(Error::IoError("w".to_string()))));
}

#[test]
fn editor_that_cannot_be_started_aborts() {
    let session = created()
        .step(EditEvent::Written(Ok(())))
        .step(EditEvent::Launched(Err("not found".to_string())));
    assert_eq!(session.action(), EditAction::Remove);
    let session = session.step(EditEvent::Removed);
    assert_eq!(session.action(), EditAction::Finish(Err(Error::IoError("not found".to_string()))));
}

#[test]
fn failed_wait_and_failed_read_abort() {
    let session = running().step(EditEvent::Exited(Err("wait".to_string()))).step(EditEvent::Removed);
    assert_eq!(session.action(), EditAction::Finish(Err(Error::IoError("wait".to_string()))));
    let session = running()
        .step(EditEvent::Exited(Ok(Exit { success: true, code: Some(0) })))
        .step(EditEvent::Read(Err("gone".to_string())));
    assert_eq!(session.action(), EditAction::Remove);
    let session = session.step(EditEvent::Removed);
    assert_eq!(session.action(), EditAction::Finish(Err(Error::IoError("gone".to_string()))));
}

#[test]
fn events_that_are_not_awaited_change_nothing_in_a_session() {
    assert_eq!(started().step(EditEvent::Removed), started());
    assert_eq!(started().step(EditEvent::Written(Ok(()))), started());
    assert_eq!(created().step(EditEvent::Read(Ok("x".to_string()))), created());
    assert_eq!(running().step(EditEvent::Removed), running());
    let done = EditSession::ReadBack("x".to_string());
    assert_eq!(done.step(EditEvent::Removed), EditSession::ReadBack("x".to_string()));
    let aborted = EditSession::Aborted(Error::PathError);
    assert_eq!(
        aborted.step(EditEvent::Read(Ok("x".to_string()))),
        EditSession::Aborted(Error::PathError)
    );
}

#[test]
fn editor_errors_have_messages() {
    assert_eq!(Error::NonZeroExitStatus(Some(1)).message(), "Editor exited with 1 exit code");
    assert_eq!(Error::NonZeroExitStatus(Some(-7)).message(), "Editor exited with -7 exit code");
    assert_eq!(Error::NonZeroExitStatus(None).message(), "Editor exited with no exit code");
    assert_eq!(Error::PathError.message(), "Fail to get tempfile path");
    assert_eq!(Error::IoError("permission denied".to_string()).message(), "permission denied");
    assert_eq!(Error::PathError.clone(), Error::PathError);
}
