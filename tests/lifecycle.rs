use sombra::{
    Action, Config, Error, ErrorControl, ErrorKind, Event, ManagerRights, Phase, Registration,
    RunState, ServiceRights, SombraWindows, StartType, Transition, UNEXPECTED_REPLY,
};

fn echo(args: Vec<String>) -> SombraWindows {
    SombraWindows::from_resolution(
        "tcp_echo",
        "executables/tcp_echo.exe",
        Ok("C:\\w\\tcp_echo.exe".to_string()),
        args,
    )
    .unwrap()
}

fn rights(change_config: bool, start: bool, query_status: bool, stop: bool, delete: bool) -> ServiceRights {
    ServiceRights { change_config, start, query_status, stop, delete }
}

#[test]
fn create_sequence_in_order() {
    let d = echo(vec!["-p".to_string(), "30222".to_string()]);
    let c = Config::new();
    assert_eq!(
        d.begin_create(),
        Transition::Next(Phase::Connecting, Action::Connect(ManagerRights { connect: true, create_service: true }))
    );
    let t = d.advance(&c, Phase::Connecting, Event::Done);
    assert_eq!(
        t,
        Transition::Next(
            Phase::ResolvingHelper,
            Action::ResolveHelper("executables/sombra-windows-service.exe".to_string())
        )
    );
    let t = d.advance(&c, Phase::ResolvingHelper, Event::Resolved(Ok("C:\\h\\helper.exe".to_string())));
    let expected = Registration {
        name: "tcp_echo".to_string(),
        display_name: "tcp_echo".to_string(),
        executable_path: "C:\\h\\helper.exe".to_string(),
        launch_arguments: vec![],
        dependencies: vec![],
        start_type: StartType::OnDemand,
        error_control: ErrorControl::Normal,
        account_name: None,
    };
    assert_eq!(
        t,
        Transition::Next(Phase::Registering, Action::Register(expected, rights(true, false, false, false, false)))
    );
    let t = d.advance(&c, Phase::Registering, Event::Done);
    assert_eq!(
        t,
        Transition::Next(Phase::Describing, Action::Describe("Sombra Service Wrapper on tcp_echo".to_string()))
    );
    let t = d.advance(&c, Phase::Describing, Event::Done);
    assert_eq!(
        t,
        Transition::Next(
            Phase::OpeningForStart,
            Action::Open("tcp_echo".to_string(), rights(false, true, false, false, false))
        )
    );
    let t = d.advance(&c, Phase::OpeningForStart, Event::Done);
    assert_eq!(
        t,
        Transition::Next(
            Phase::Starting,
            Action::Start(vec![
                "C:\\w\\tcp_echo.exe".to_string(),
                "-p".to_string(),
                "30222".to_string()
            ])
        )
    );
    assert_eq!(d.advance(&c, Phase::Starting, Event::Done), Transition::Finished(Ok(())));
}

#[test]
fn configured_helper_is_resolved() {
    let d = echo(vec![]);
    let c = Config { helper_path: Some("tools/helper.exe".to_string()) };
    assert_eq!(
        d.advance(&c, Phase::Connecting, Event::Done),
        Transition::Next(Phase::ResolvingHelper, Action::ResolveHelper("tools/helper.exe".to_string()))
    );
}

#[test]
fn start_without_arguments_passes_path_only() {
    let d = echo(vec![]);
    assert_eq!(
        d.advance(&Config::new(), Phase::OpeningForStart, Event::Done),
        Transition::Next(Phase::Starting, Action::Start(vec!["C:\\w\\tcp_echo.exe".to_string()]))
    );
}

#[test]
fn delete_sequence_stops_running_service() {
    let d = echo(vec![]);
    let c = Config::new();
    assert_eq!(
        d.begin_delete(),
        Transition::Next(
            Phase::ConnectingForRemoval,
            Action::Connect(ManagerRights { connect: true, create_service: false })
        )
    );
    assert_eq!(
        d.advance(&c, Phase::ConnectingForRemoval, Event::Done),
        Transition::Next(
            Phase::OpeningForRemoval,
            Action::Open("tcp_echo".to_string(), rights(false, false, true, true, true))
        )
    );
    assert_eq!(
        d.advance(&c, Phase::OpeningForRemoval, Event::Done),
        Transition::Next(Phase::QueryingStatus, Action::QueryStatus)
    );
    assert_eq!(
        d.advance(&c, Phase::QueryingStatus, Event::Status(RunState::Running)),
        Transition::Next(Phase::Stopping, Action::Stop)
    );
    assert_eq!(
        d.advance(&c, Phase::Stopping, Event::Done),
        Transition::Next(Phase::Settling, Action::Wait(100))
    );
    assert_eq!(
        d.advance(&c, Phase::Settling, Event::Done),
        Transition::Next(Phase::Removing, Action::Remove)
    );
    assert_eq!(d.advance(&c, Phase::Removing, Event::Done), Transition::Finished(Ok(())));
}

#[test]
fn delete_of_stopped_service_skips_stop() {
    let d = echo(vec![]);
    assert_eq!(
        d.advance(&Config::new(), Phase::QueryingStatus, Event::Status(RunState::Stopped)),
        Transition::Next(Phase::Removing, Action::Remove)
    );
    assert_eq!(
        d.advance(&Config::new(), Phase::QueryingStatus, Event::Status(RunState::StopPending)),
        Transition::Next(Phase::Stopping, Action::Stop)
    );
}

#[test]
fn failure_ends_with_service_error() {
    let d = echo(vec![]);
    let c = Config::new();
    let expected = Transition::Finished(Err(Error {
        kind: ErrorKind::Service,
        message: "already exists".to_string(),
        content: Some("tcp_echo".to_string()),
    }));
    assert_eq!(d.advance(&c, Phase::Registering, Event::Failed("already exists".to_string())), expected);
    let t = d.advance(&c, Phase::Stopping, Event::Failed("denied".to_string()));
    assert_eq!(t, Transition::Finished(Err(Error::service("denied".to_string(), "tcp_echo"))));
}

#[test]
fn helper_resolution_failure_is_handed_on() {
    let d = echo(vec![]);
    let e = Error::io("not found".to_string(), "executables/sombra-windows-service.exe");
    assert_eq!(
        d.advance(&Config::new(), Phase::ResolvingHelper, Event::Resolved(Err(e.clone()))),
        Transition::Finished(Err(e))
    );
}

#[test]
fn reply_that_does_not_fit_is_an_error() {
    let d = echo(vec![]);
    let expected = Transition::Finished(Err(Error::service(UNEXPECTED_REPLY.to_string(), "tcp_echo")));
    assert_eq!(d.advance(&Config::new(), Phase::ResolvingHelper, Event::Done), expected);
    let expected = Transition::Finished(Err(Error::service(UNEXPECTED_REPLY.to_string(), "tcp_echo")));
    assert_eq!(d.advance(&Config::new(), Phase::QueryingStatus, Event::Done), expected);
}
