use esrc_cqrs::nats::{AggregateCommandHandler, DurableProjectorHandler, LiveViewQuery, NatsProjectorRunner};
use esrc_cqrs::CqrsRegistry;

#[test]
fn test_registry_accessors() {
    let registry: CqrsRegistry<String, AggregateCommandHandler<i64>, DurableProjectorHandler<u8>, ()> =
        CqrsRegistry::new("store".to_string())
            .register_command(AggregateCommandHandler::<i64>::new("Counter"))
            .register_projector(DurableProjectorHandler::new("reg-proj", 0u8));
    assert_eq!(registry.command_handlers().len(), 1, "one command handler should be registered");
    assert_eq!(registry.projector_handlers().len(), 1, "one projector handler should be registered");
    assert_eq!(registry.command_handlers()[0].name(), "Counter");
    assert_eq!(registry.projector_handlers()[0].name(), "reg-proj");
    assert_eq!(registry.store(), "store");
}

#[test]
fn test_registry_query_handlers_accessor() {
    type GetState = LiveViewQuery<i64, i64, fn(&i64) -> i64>;
    let registry: CqrsRegistry<u8, (), (), GetState> = CqrsRegistry::new(0u8)
        .register_query(GetState::new("Counter.GetState", |v| *v))
        .register_query(GetState::new("Counter.GetStateAlt", |v| *v));
    assert_eq!(registry.query_handlers().len(), 2, "two query handlers should be registered");
    let names: Vec<&str> = registry.query_handlers().iter().map(|q| q.name()).collect();
    assert_eq!(names, vec!["Counter.GetState", "Counter.GetStateAlt"]);
    assert!(registry.command_handlers().is_empty());
}

#[test]
fn registration_keeps_order_and_other_lists() {
    let registry: CqrsRegistry<u8, u32, u32, u32> = CqrsRegistry::new(1)
        .register_command(1)
        .register_query(10)
        .register_command(2)
        .register_projector(100);
    assert_eq!(registry.command_handlers(), &[1, 2]);
    assert_eq!(registry.query_handlers(), &[10]);
    assert_eq!(registry.projector_handlers(), &[100]);
}

#[test]
fn projector_handlers_and_runners() {
    let h = DurableProjectorHandler::new("cafe-orders", 5u8);
    assert_eq!(h.name(), "cafe-orders");
    assert_eq!(*h.projector(), 5);
    let runner = NatsProjectorRunner::new(h);
    assert_eq!(runner.handler().name(), "cafe-orders");
}
