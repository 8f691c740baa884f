use dlna_dmr::supervisor::{Command, Phase, Signal, Supervisor, Task};

fn stop_all() -> Vec<Command> {
    vec![
        Command::Stop(Task::Discovery),
        Command::Stop(Task::KeepAlive),
        Command::Stop(Task::Control),
        Command::Withdraw,
    ]
}

#[test]
fn test_start_and_interrupt() {
    let mut supervisor = Supervisor::new();
    assert_eq!(supervisor.phase(), Phase::Idle);
    assert_eq!(
        supervisor.on(Signal::Bound),
        vec![
            Command::Start(Task::Discovery),
            Command::Start(Task::KeepAlive),
            Command::Start(Task::Control),
        ]
    );
    assert_eq!(supervisor.phase(), Phase::Running);
    assert_eq!(supervisor.on(Signal::Interrupt), stop_all());
    assert_eq!(supervisor.phase(), Phase::Done);
}

#[test]
fn test_bind_failure_is_fatal() {
    let mut supervisor = Supervisor::new();
    assert!(supervisor.on(Signal::BindFailed).is_empty());
    assert_eq!(supervisor.phase(), Phase::Done);
    assert!(supervisor.on(Signal::Bound).is_empty());
    assert!(supervisor.on(Signal::Interrupt).is_empty());
    assert_eq!(supervisor.phase(), Phase::Done);
}

#[test]
fn test_any_loop_ending_stops_all() {
    for task in [Task::Discovery, Task::KeepAlive, Task::Control] {
        let mut supervisor = Supervisor::new();
        supervisor.on(Signal::Bound);
        assert_eq!(supervisor.on(Signal::Ended(task)), stop_all());
        assert_eq!(supervisor.phase(), Phase::Done);
    }
}

#[test]
fn test_withdrawal_is_commanded_once() {
    let signals = [
        Signal::Interrupt,
        Signal::Ended(Task::Control),
        Signal::Bound,
        Signal::Bound,
        Signal::BindFailed,
        Signal::Ended(Task::KeepAlive),
        Signal::Interrupt,
        Signal::Ended(Task::Discovery),
        Signal::Bound,
        Signal::Interrupt,
    ];
    let mut supervisor = Supervisor::new();
    let mut withdrawals = 0;
    for signal in signals {
        for command in supervisor.on(signal) {
            if command == Command::Withdraw {
                withdrawals += 1;
            }
        }
    }
    assert_eq!(withdrawals, 1);
    assert_eq!(supervisor.phase(), Phase::Done);
}

#[test]
fn test_idle_ignores_stops() {
    let mut supervisor = Supervisor::new();
    assert!(supervisor.on(Signal::Interrupt).is_empty());
    assert!(supervisor.on(Signal::Ended(Task::Control)).is_empty());
    assert_eq!(supervisor.phase(), Phase::Idle);
}
