use kodi_helper::rpc::{RpcCall, RpcError};
use kodi_helper::scan::{ScanAction, ScanEvent, ScanSession, ScanStage};

#[test]
fn clean_then_scan_then_poll_until_idle() {
    let (mut s, a) = ScanSession::clean_and_scan_kodi_library(10);
    assert!(matches!(a, ScanAction::SendClean));
    assert!(matches!(s.step(ScanEvent::Acknowledged), ScanAction::SendScan));
    assert!(matches!(s.step(ScanEvent::Acknowledged), ScanAction::WaitThenPoll));
    assert!(matches!(s.step(ScanEvent::Status(Some(true))), ScanAction::WaitThenPoll));
    assert!(matches!(s.step(ScanEvent::Status(None)), ScanAction::WaitThenPoll));
    assert_eq!(s.polls, 2);
    assert!(matches!(s.step(ScanEvent::Status(Some(false))), ScanAction::Finish(Ok(()))));
    assert_eq!(s.stage, ScanStage::Done);
    assert!(matches!(s.step(ScanEvent::Acknowledged), ScanAction::Idle));
}

#[test]
fn clean_failure_ends_session() {
    let (mut s, _) = ScanSession::clean_and_scan_kodi_library(10);
    let a = s.step(ScanEvent::Failed(RpcError::Transport("refused".to_string())));
    assert!(matches!(a, ScanAction::Finish(Err(RpcError::Transport(ref m))) if m == "refused"));
    assert_eq!(s.stage, ScanStage::Done);
}

#[test]
fn poll_failure_ends_session() {
    let (mut s, a) = ScanSession::scan_video_library_and_wait_for_done(10);
    assert!(matches!(a, ScanAction::SendScan));
    s.step(ScanEvent::Acknowledged);
    let a = s.step(ScanEvent::Failed(RpcError::Remote { message: "x".to_string(), data: None }));
    assert!(matches!(a, ScanAction::Finish(Err(RpcError::Remote { .. }))));
}

#[test]
fn wedged_server_times_out() {
    let (mut s, _) = ScanSession::scan_video_library_and_wait_for_done(2);
    s.step(ScanEvent::Acknowledged);
    assert!(matches!(s.step(ScanEvent::Status(Some(true))), ScanAction::WaitThenPoll));
    assert!(matches!(s.step(ScanEvent::Status(Some(true))), ScanAction::WaitThenPoll));
    assert!(matches!(s.step(ScanEvent::Status(Some(true))), ScanAction::Finish(Err(RpcError::ScanTimedOut))));
    assert_eq!(RpcError::ScanTimedOut.describe(), "library scan did not finish in time");
}

#[test]
fn call_methods_and_params() {
    assert_eq!(RpcCall::CleanLibrary.method(), "VideoLibrary.Clean");
    assert_eq!(RpcCall::ScanLibrary.method(), "VideoLibrary.Scan");
    assert_eq!(RpcCall::IsScanning.method(), "XBMC.GetInfoBooleans");
    assert_eq!(RpcCall::GetMovies.method(), "VideoLibrary.GetMovies");
    assert_eq!(RpcCall::GetDirectory("/m".to_string()).method(), "Files.GetDirectory");
    assert_eq!(RpcCall::RefreshMovie(3).method(), "VideoLibrary.RefreshMovie");
    assert_eq!(RpcCall::SetMovieTags(3, vec![]).method(), "VideoLibrary.SetMovieDetails");
    assert!(!RpcCall::CleanLibrary.has_params());
    assert!(!RpcCall::ScanLibrary.has_params());
    assert!(RpcCall::GetMovies.has_params());
}
