use lib_analytics_core::{
    classify_attempt, AnalyticsClient, AnalyticsEvent, DispatchInput, Dispatcher, EnrichedEvent,
    FlushOutcome, Tags,
};

fn envelope(id: u128) -> EnrichedEvent {
    EnrichedEvent::new(
        AnalyticsEvent::ProjectUpdated { project_id: id, user_id: id },
        Tags { hostname: None, environment: None },
    )
}

fn envelope_id(e: &EnrichedEvent) -> u128 {
    match e.event {
        AnalyticsEvent::ProjectUpdated { project_id, .. } => project_id,
        _ => panic!("unexpected event variant"),
    }
}

#[test]
fn no_flush_before_the_threshold() {
    let mut dispatcher = Dispatcher::new();
    for i in 0..99u128 {
        assert!(dispatcher.on_input(DispatchInput::Arrival(envelope(i))).is_none());
    }
    assert_eq!(dispatcher.pending_len(), 99);
    let flush = dispatcher.on_input(DispatchInput::Arrival(envelope(99)));
    let batch = flush.expect("the hundredth envelope must flush");
    assert_eq!(batch.len(), 100);
    assert_eq!(dispatcher.pending_len(), 0);
}

#[test]
fn timer_with_empty_batch_does_nothing() {
    let mut dispatcher = Dispatcher::new();
    assert!(dispatcher.on_input(DispatchInput::TimerTick).is_none());
    assert_eq!(dispatcher.pending_len(), 0);
}

#[test]
fn scenario_two_hundred_fifty_rapid_events() {
    // 250 arrivals with no timer tick: exactly two size-triggered flushes of
    // 100 envelopes each, then the remaining 50 flush on the next tick.
    let mut dispatcher = Dispatcher::new();
    let mut flushes: Vec<Vec<EnrichedEvent>> = Vec::new();
    for i in 0..250u128 {
        if let Some(batch) = dispatcher.on_input(DispatchInput::Arrival(envelope(i))) {
            flushes.push(batch);
        }
    }
    assert_eq!(flushes.len(), 2);
    assert_eq!(flushes[0].len(), 100);
    assert_eq!(flushes[1].len(), 100);
    assert_eq!(dispatcher.pending_len(), 50);

    let batch = dispatcher
        .on_input(DispatchInput::TimerTick)
        .expect("the timer must flush the remainder");
    assert_eq!(batch.len(), 50);
    assert_eq!(dispatcher.pending_len(), 0);

    // Arrival order is preserved across the three batches.
    flushes.push(batch);
    let mut expected: u128 = 0;
    for batch in &flushes {
        for e in batch {
            assert_eq!(envelope_id(e), expected);
            expected += 1;
        }
    }
    assert_eq!(expected, 250);
}

#[test]
fn scenario_single_event_then_timer() {
    // One envelope, then a full timer interval with no further input:
    // exactly one flush, containing exactly that envelope.
    let mut dispatcher = Dispatcher::new();
    assert!(dispatcher.on_input(DispatchInput::Arrival(envelope(7))).is_none());
    let batch = dispatcher
        .on_input(DispatchInput::TimerTick)
        .expect("a pending envelope must flush on the tick");
    assert_eq!(batch.len(), 1);
    assert_eq!(envelope_id(&batch[0]), 7);
    assert_eq!(dispatcher.pending_len(), 0);
    // Nothing further arrives, so the following ticks flush nothing.
    assert!(dispatcher.on_input(DispatchInput::TimerTick).is_none());
    assert!(dispatcher.on_input(DispatchInput::TimerTick).is_none());
}

#[test]
fn scenario_unreachable_transport_discards_every_batch() {
    // The transport fails on every attempt. 500 envelopes arrive over
    // several timer intervals: every flush still happens on schedule, each
    // failure is recorded, no envelope is redelivered, and the dispatcher
    // keeps accepting work.
    let mut dispatcher = Dispatcher::new();
    let mut delivered_ids: Vec<u128> = Vec::new();
    let mut attempts = 0usize;
    let mut next: u128 = 0;
    for _interval in 0..10 {
        for _ in 0..50 {
            if let Some(batch) = dispatcher.on_input(DispatchInput::Arrival(envelope(next))) {
                attempts += 1;
                assert_eq!(classify_attempt(None), FlushOutcome::Failed);
                delivered_ids.extend(batch.iter().map(envelope_id));
            }
            next += 1;
        }
        if let Some(batch) = dispatcher.on_input(DispatchInput::TimerTick) {
            attempts += 1;
            assert_eq!(classify_attempt(None), FlushOutcome::Failed);
            delivered_ids.extend(batch.iter().map(envelope_id));
        }
    }
    // Fifty envelopes per interval never reach the size threshold, so each
    // of the ten ticks flushed one batch of fifty: all on schedule.
    assert_eq!(attempts, 10);
    assert_eq!(dispatcher.pending_len(), 0);
    // Each envelope was handed to the transport exactly once.
    assert_eq!(delivered_ids.len(), 500);
    let mut sorted = delivered_ids.clone();
    sorted.sort();
    sorted.dedup();
    assert_eq!(sorted.len(), 500);
}

#[test]
fn scenario_two_producers_one_dispatcher() {
    // Two handles to the same client interleave track calls; a single
    // dispatcher drains the queue. Every enqueued envelope appears in
    // exactly one flushed batch.
    let (client_a, mut receiver) = AnalyticsClient::new("http://localhost:8094".to_string());
    let client_b = client_a.clone();
    let no_tags = || Tags { hostname: None, environment: None };
    for i in 0..125u128 {
        client_a.track(
            AnalyticsEvent::ProjectUpdated { project_id: 2 * i, user_id: 2 * i },
            no_tags(),
        );
        client_b.track(
            AnalyticsEvent::ProjectUpdated { project_id: 2 * i + 1, user_id: 2 * i + 1 },
            no_tags(),
        );
    }

    let mut dispatcher = Dispatcher::new();
    let mut seen: Vec<u128> = Vec::new();
    while let Ok(env) = receiver.try_recv() {
        if let Some(batch) = dispatcher.on_input(DispatchInput::Arrival(env)) {
            seen.extend(batch.iter().map(envelope_id));
        }
    }
    if let Some(batch) = dispatcher.on_input(DispatchInput::TimerTick) {
        seen.extend(batch.iter().map(envelope_id));
    }

    assert_eq!(seen.len(), 250);
    let mut sorted = seen.clone();
    sorted.sort();
    sorted.dedup();
    assert_eq!(sorted.len(), 250);
    assert_eq!(dispatcher.pending_len(), 0);
}
