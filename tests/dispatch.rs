use pole_detector::dispatch::{
    ClientDirective, CycleDispatch, DispatchAction, DispatchError, DispatchOutcome,
    REPLY_TIMEOUT_MS,
};
use pole_detector::sequencer::{AxleCommand, AxlePosition, Distances, SolenoidState};

fn cmd(axle: AxlePosition, state: SolenoidState) -> AxleCommand {
    AxleCommand::new(axle, state)
}

/// Runs a cycle, answering the sends with `outcomes` in turn, and returns
/// the commands sent and the action the cycle ended on.
fn run(d: Distances, outcomes: &[DispatchOutcome]) -> (Vec<AxleCommand>, DispatchAction) {
    let mut cycle = CycleDispatch::for_distances(&d);
    let mut sent = Vec::new();
    let mut i = 0;
    loop {
        match cycle.next_action() {
            DispatchAction::Send(c) => {
                sent.push(c);
                let _ = cycle.record_outcome(outcomes[i]);
                i += 1;
            }
            other => return (sent, other),
        }
    }
}

#[test]
fn dispatch_follows_front_mid_rear_order() {
    let acks = [DispatchOutcome::Acknowledged; 5];
    let (sent, end) = run(Distances::new(900, 800, 700), &acks);
    assert_eq!(
        sent,
        vec![
            cmd(AxlePosition::Front, SolenoidState::Deployed),
            cmd(AxlePosition::Front, SolenoidState::Retracted),
            cmd(AxlePosition::Middle, SolenoidState::Deployed),
            cmd(AxlePosition::Middle, SolenoidState::Retracted),
            cmd(AxlePosition::Rear, SolenoidState::Deployed),
        ]
    );
    assert_eq!(end, DispatchAction::Finish);
}

#[test]
fn timeout_drops_command_without_redelivery() {
    assert_eq!(REPLY_TIMEOUT_MS, 1000);
    let outcomes = [DispatchOutcome::TimedOut, DispatchOutcome::Acknowledged];
    let (sent, end) = run(Distances::new(1500, 800, 1500), &outcomes);
    assert_eq!(
        sent,
        vec![
            cmd(AxlePosition::Front, SolenoidState::Retracted),
            cmd(AxlePosition::Middle, SolenoidState::Deployed),
        ]
    );
    assert_eq!(end, DispatchAction::Finish);
}

#[test]
fn all_timeouts_still_send_each_once() {
    let outcomes = [DispatchOutcome::TimedOut; 5];
    let (sent, end) = run(Distances::new(900, 800, 700), &outcomes);
    assert_eq!(sent.len(), 5);
    assert_eq!(end, DispatchAction::Finish);
}

#[test]
fn directives_follow_outcome() {
    let mut cycle = CycleDispatch::for_distances(&Distances::new(1500, 800, 1500));
    assert_eq!(
        cycle.record_outcome(DispatchOutcome::Acknowledged),
        Ok(ClientDirective::Reuse)
    );
    assert_eq!(
        cycle.record_outcome(DispatchOutcome::TimedOut),
        Ok(ClientDirective::GiveUp)
    );
    assert_eq!(cycle.next_action(), DispatchAction::Finish);
}

#[test]
fn error_reply_aborts_cycle() {
    let mut cycle = CycleDispatch::for_distances(&Distances::new(900, 800, 1500));
    assert_eq!(
        cycle.next_action(),
        DispatchAction::Send(cmd(AxlePosition::Front, SolenoidState::Deployed))
    );
    assert_eq!(
        cycle.record_outcome(DispatchOutcome::Acknowledged),
        Ok(ClientDirective::Reuse)
    );
    assert_eq!(
        cycle.record_outcome(DispatchOutcome::ErrorReply),
        Err(DispatchError::RemoteRejected(cmd(
            AxlePosition::Front,
            SolenoidState::Retracted
        )))
    );
    assert_eq!(cycle.next_action(), DispatchAction::Abort);
}

#[test]
fn quiet_cycle_finishes_at_once() {
    let cycle = CycleDispatch::for_distances(&Distances::new(1100, 1200, 1300));
    assert_eq!(cycle.next_action(), DispatchAction::Finish);
    let empty = CycleDispatch::new(Vec::new());
    assert_eq!(empty.next_action(), DispatchAction::Finish);
}
