use beet::steering::seek;
use beet::steering::SeekAgent;
use beet::entity::Entity;
use beet::lifecycle::LifecycleObserver;
use beet::lifecycle::LifecycleSystem;
use beet::lifecycle::LifecycleSystemsPlugin;
use beet::lifecycle::TickPhase;
use beet::post_message::from_js_value;
use beet::post_message::MessageData;
use beet::post_message::MessageDecodeError;
use beet::post_message::MessageEncoding;
use beet::sentence_flow::sentence_flow;
use beet::sentence_flow::Sentence;
use beet::sentence_flow::SentenceFlow;
use beet::sentence_flow::SentenceFlowStep;

#[test]
fn works() {
    // The agent says "destroy"; of its children "heal" and "kill", the model
    // finds "kill" closest, and that child is run.
    let root = Sentence::new("destroy");
    assert_eq!(root.0, "destroy");
    let _flow = SentenceFlow::new();
    let kill = Entity::from_raw(2);
    assert!(matches!(sentence_flow(Some(Ok(kill))), SentenceFlowStep::Run(e) if e == kill));
}

#[test]
fn sentence_flow_waits_for_the_model() {
    assert!(matches!(sentence_flow(None), SentenceFlowStep::NotReady));
    assert!(matches!(
        sentence_flow(Some(Err("no children".to_string()))),
        SentenceFlowStep::Failed(m) if m == "no children"
    ));
}

#[test]
fn lifecycle_plugin_adds_its_observers() {
    let s = LifecycleSystemsPlugin.build();
    assert_eq!(s.observers.len() as u32, LifecycleSystemsPlugin::NUM_OBSERVERS);
    assert_eq!(
        s.observers,
        vec![
            LifecycleObserver::BubbleRunResult,
            LifecycleObserver::InterruptOnRun,
            LifecycleObserver::InterruptOnRunResult
        ]
    );
    assert_eq!(
        s.sets,
        vec![
            (TickPhase::PreTick, None),
            (TickPhase::Tick, Some(TickPhase::PreTick)),
            (TickPhase::PostTick, Some(TickPhase::Tick))
        ]
    );
    assert_eq!(s.systems, vec![(LifecycleSystem::SetRootAsTargetEntity, TickPhase::PreTick)]);
}

#[test]
fn message_data_decoding() {
    assert!(matches!(
        from_js_value(MessageData::ArrayBuffer(vec![1, 2]), false),
        Ok(MessageEncoding::Binary(b)) if b == vec![1, 2]
    ));
    assert!(matches!(
        from_js_value(MessageData::Text("[]".to_string()), true),
        Ok(MessageEncoding::Json(t)) if t == "[]"
    ));
    assert!(matches!(
        from_js_value(MessageData::Text("[]".to_string()), false),
        Err(MessageDecodeError::JsonNotEnabled)
    ));
    assert!(matches!(
        from_js_value(MessageData::Other, true),
        Err(MessageDecodeError::UnknownDataType)
    ));
}

#[test]
fn entity_bits_round_trip() {
    let e = Entity { index: 7, generation: 3 };
    assert_eq!(e.to_bits(), (3u64 << 32) | 7);
    assert_eq!(Entity::from_bits(e.to_bits()), Some(e));
    assert_eq!(Entity::from_bits(7), None);
    assert_eq!(Entity::from_raw(5).to_bits(), (1u64 << 32) | 5);
}

#[test]
fn seek_steers_agents_with_a_target() {
    let a = Entity::from_raw(1);
    let b = Entity::from_raw(2);
    let c = Entity::from_raw(3);
    let running = vec![
        Some(SeekAgent { agent: a, target_position: Some((1i32, 2i32)) }),
        None,
        Some(SeekAgent { agent: b, target_position: None }),
        Some(SeekAgent { agent: c, target_position: Some((0, 0)) }),
    ];
    assert_eq!(seek(&running), vec![(a, (1, 2)), (c, (0, 0))]);
    let _ = beet::steering::Seek;
}
