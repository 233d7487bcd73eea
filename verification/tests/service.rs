use hephaestus_control::arena_driver::{EvidenceClaim, RunIdentity};
use hephaestus_control::error::ControlError;
use hephaestus_control::service::{
    enforce_arena_deadline, service_async_messages, Offer, ServiceReply, ServiceTurn,
    EVIDENCE_PER_ROUND,
};

fn text(value: &str) -> String {
    value.to_owned()
}

fn run(run_id: &str) -> RunIdentity {
    RunIdentity { run_id: text(run_id), genome_id: text("genome"), world_id: text("world") }
}

fn offer(run_id: &str, writer: bool) -> ServiceReply {
    ServiceReply::Offered(Offer {
        claim: EvidenceClaim { run_id: text(run_id), provenance: None },
        job: Some(run("job-run")),
        trials: vec![run("trial-run")],
        writer,
    })
}

fn failed(message: &str) -> ServiceReply {
    ServiceReply::Failed(ControlError::Projection(text(message)))
}

#[test]
fn a_round_without_work_comes_to_rest() {
    let mut turn = enforce_arena_deadline(None, 5, 0);
    assert_eq!(turn, ServiceTurn::Evidence { left: EVIDENCE_PER_ROUND });
    let mut turns = 0;
    while turn != ServiceTurn::Rest {
        turn = service_async_messages(turn, ServiceReply::Done).expect("nothing fails");
        turns += 1;
    }
    assert_eq!(turns, 5);
}

#[test]
fn a_round_takes_eight_pieces_of_evidence() {
    let mut turn = enforce_arena_deadline(None, 0, 0);
    let mut taken = 0;
    while turn != ServiceTurn::Job {
        let reply = match turn {
            ServiceTurn::Evidence { .. } => {
                taken += 1;
                offer("trial-run", true)
            }
            _ => ServiceReply::Done,
        };
        turn = service_async_messages(turn, reply).expect("nothing fails");
    }
    assert_eq!(taken, 8);
}

#[test]
fn evidence_of_another_run_is_refused() {
    let turn = ServiceTurn::Evidence { left: 2 };
    assert_eq!(
        service_async_messages(turn, offer("other", true)),
        Ok(ServiceTurn::Refuse {
            left: 1,
            reason: "writer rejected evidence outside the admitted run"
        })
    );
    assert_eq!(
        service_async_messages(turn, offer("job-run", false)),
        Ok(ServiceTurn::Refuse { left: 1, reason: "canonical writer is unavailable" })
    );
    assert_eq!(
        service_async_messages(turn, offer("job-run", true)),
        Ok(ServiceTurn::Persist { left: 1 })
    );
    assert_eq!(
        service_async_messages(ServiceTurn::Refuse { left: 0, reason: "" }, ServiceReply::Done),
        Ok(ServiceTurn::Job)
    );
}

#[test]
fn failures_of_a_round_are_told_apart() {
    assert_eq!(
        service_async_messages(ServiceTurn::Deadline, failed("x")),
        Err(ControlError::Projection(text("Arena deadline could not be persisted")))
    );
    assert_eq!(
        service_async_messages(ServiceTurn::Persist { left: 3 }, failed("x")),
        Ok(ServiceTurn::Halt { left: 3 })
    );
    assert_eq!(
        service_async_messages(ServiceTurn::Halt { left: 3 }, ServiceReply::Done),
        Ok(ServiceTurn::Evidence { left: 3 })
    );
    assert_eq!(
        service_async_messages(ServiceTurn::Refresh { left: 3 }, failed("x")),
        Err(ControlError::Projection(text("evidence projection failed")))
    );
    for turn in [ServiceTurn::Job, ServiceTurn::Arena] {
        assert_eq!(
            service_async_messages(turn, failed("own")),
            Err(ControlError::Projection(text("own")))
        );
    }
    assert_eq!(
        service_async_messages(ServiceTurn::Evolution, failed("x")),
        Ok(ServiceTurn::Adaptations)
    );
    assert_eq!(
        service_async_messages(ServiceTurn::Adaptations, failed("x")),
        Ok(ServiceTurn::Rest)
    );
}
