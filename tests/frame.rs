use threedge::channel::{ChannelError, CommandChannel};
use threedge::command::Command;
use threedge::frame::{FrameAction, FrameError, FrameEvent, FrameRenderer, Phase};
use threedge::geometry_id::{GeometryId, GeometryIds};
use threedge::registry::GeometryRegistry;

fn id(value: u64) -> GeometryId {
    GeometryId { value }
}

/// Runs the steps of one tick whose acquisition succeeds with `image`,
/// draining `commands`; returns the draw action.
fn render_tick(
    frame: &mut FrameRenderer<&'static str, &'static str>,
    image: usize,
    commands: Vec<Command<&'static str, &'static str>>,
) -> FrameAction {
    let mut action = frame.step(FrameEvent::TickStarted).unwrap();
    if action == FrameAction::RecreateSwapchain {
        action = frame.step(FrameEvent::SwapchainRecreated { width: 640, height: 480 }).unwrap();
    }
    if action == FrameAction::BuildFramebuffers {
        action = frame.step(FrameEvent::FramebuffersBuilt).unwrap();
    }
    assert_eq!(action, FrameAction::AcquireImage);
    assert_eq!(frame.step(FrameEvent::ImageAcquired { image }), Ok(FrameAction::DrainCommands));
    let draw = frame.drain(commands).map_err(|(e, _)| e).unwrap();
    assert_eq!(frame.step(FrameEvent::Submitted), Ok(FrameAction::EndTick));
    draw
}

#[test]
fn out_of_date_then_rebuild_then_frame() {
    let mut frame: FrameRenderer<&str, &str> = FrameRenderer::new(800, 600);
    assert_eq!(frame.step(FrameEvent::TickStarted), Ok(FrameAction::BuildFramebuffers));
    assert_eq!(frame.step(FrameEvent::FramebuffersBuilt), Ok(FrameAction::AcquireImage));
    assert_eq!(frame.step(FrameEvent::OutOfDate), Ok(FrameAction::EndTick));
    assert!(frame.state().needs_recreate);
    assert_eq!(frame.state().frames, 0);

    assert_eq!(frame.step(FrameEvent::TickStarted), Ok(FrameAction::RecreateSwapchain));
    assert_eq!(
        frame.step(FrameEvent::SwapchainRecreated { width: 1024, height: 768 }),
        Ok(FrameAction::BuildFramebuffers)
    );
    assert_eq!(frame.step(FrameEvent::FramebuffersBuilt), Ok(FrameAction::AcquireImage));
    assert_eq!(frame.step(FrameEvent::ImageAcquired { image: 1 }), Ok(FrameAction::DrainCommands));
    assert_eq!(frame.drain(vec![]).map_err(|(e, _)| e), Ok(FrameAction::Draw { image: 1, join_previous: false }));
    assert_eq!(frame.step(FrameEvent::Submitted), Ok(FrameAction::EndTick));
    assert!(!frame.state().needs_recreate);
    assert_eq!((frame.state().width, frame.state().height), (1024, 768));

    let draw = render_tick(&mut frame, 0, vec![]);
    assert_eq!(draw, FrameAction::Draw { image: 0, join_previous: true });
    assert_eq!(frame.state().frames, 2);
}

#[test]
fn unsupported_dimensions_skip_the_tick_and_retry() {
    let mut frame: FrameRenderer<&str, &str> = FrameRenderer::new(800, 600);
    frame.request_recreate();
    assert_eq!(frame.step(FrameEvent::TickStarted), Ok(FrameAction::RecreateSwapchain));
    assert_eq!(frame.step(FrameEvent::UnsupportedDimensions), Ok(FrameAction::EndTick));
    assert_eq!(frame.state().phase, Phase::Idle);
    assert_eq!(frame.step(FrameEvent::TickStarted), Ok(FrameAction::RecreateSwapchain));
}

#[test]
fn failure_terminates_the_machine() {
    let mut frame: FrameRenderer<&str, &str> = FrameRenderer::new(800, 600);
    assert_eq!(frame.step(FrameEvent::TickStarted), Ok(FrameAction::BuildFramebuffers));
    assert_eq!(frame.step(FrameEvent::Failed), Err(FrameError::Failed));
    assert_eq!(frame.state().phase, Phase::Terminated);
    assert_eq!(frame.step(FrameEvent::TickStarted), Err(FrameError::Terminated));
    assert_eq!(frame.drain(vec![]).map_err(|(e, _)| e), Err(FrameError::Terminated));
}

#[test]
fn events_out_of_order_are_refused() {
    let mut frame: FrameRenderer<&str, &str> = FrameRenderer::new(800, 600);
    assert_eq!(frame.step(FrameEvent::Submitted), Err(FrameError::UnexpectedEvent));
    match frame.drain(vec![Command::SetCamera("cam")]) {
        Err((FrameError::UnexpectedEvent, back)) => {
            assert_eq!(back.len(), 1);
            assert!(matches!(back[0], Command::SetCamera("cam")));
        }
        other => panic!("unexpected: {:?}", other),
    }
    assert_eq!(frame.camera(), &None);
    assert_eq!(frame.state().phase, Phase::Idle);
}

#[test]
fn commands_reach_the_next_frame_in_order_once() {
    let mut channel: CommandChannel<Command<&str, &str>> = CommandChannel::new();
    let mut frame: FrameRenderer<&str, &str> = FrameRenderer::new(800, 600);
    assert!(channel.send(Command::SetCamera("first")).is_ok());
    assert!(channel.send(Command::AddGeometry(id(1), "cube")).is_ok());
    assert!(channel.send(Command::SetCamera("second")).is_ok());
    assert!(channel.send(Command::AddGeometry(id(2), "floor")).is_ok());
    assert_eq!(channel.len(), 4);

    let commands = channel.drain().map_err(|(e, _)| e).unwrap();
    assert_eq!(channel.len(), 0);
    render_tick(&mut frame, 0, commands);
    assert_eq!(frame.camera(), &Some("second"));
    assert_eq!(frame.registry().len(), 2);
    assert_eq!(frame.registry().entry(0), &(id(1), "cube"));
    assert_eq!(frame.registry().entry(1), &(id(2), "floor"));

    // Empty polls deliver nothing and change nothing.
    for _ in 0..3 {
        let commands = channel.drain().map_err(|(e, _)| e).unwrap();
        assert!(commands.is_empty());
        render_tick(&mut frame, 0, commands);
    }
    assert_eq!(frame.registry().len(), 2);

    assert!(channel.send(Command::ClearCamera).is_ok());
    render_tick(&mut frame, 1, channel.drain().map_err(|(e, _)| e).unwrap());
    assert_eq!(frame.camera(), &None);
    assert_eq!(frame.registry().len(), 2);
}

#[test]
fn add_geometry_twice_replaces_the_entry() {
    let mut frame: FrameRenderer<&str, &str> = FrameRenderer::new(800, 600);
    render_tick(
        &mut frame,
        0,
        vec![
            Command::AddGeometry(id(3), "old"),
            Command::AddGeometry(id(4), "other"),
            Command::AddGeometry(id(3), "new"),
        ],
    );
    assert_eq!(frame.registry().len(), 2);
    assert_eq!(frame.registry().get(id(3)), Some(&"new"));
    assert_eq!(frame.registry().entry(0), &(id(3), "new"));
    assert_eq!(frame.registry().get(id(4)), Some(&"other"));
}

#[test]
fn registry_insert_returns_the_replaced_entry() {
    let mut registry: GeometryRegistry<u32> = GeometryRegistry::new();
    assert_eq!(registry.insert(id(9), 1), None);
    assert_eq!(registry.insert(id(9), 2), Some(1));
    assert_eq!(registry.find(id(9)), Some(0));
    assert_eq!(registry.find(id(8)), None);
    assert_eq!(registry.get(id(8)), None);
    registry.clear();
    assert_eq!(registry.len(), 0);
}

#[test]
fn channel_send_fails_once_the_consumer_is_gone() {
    let mut channel: CommandChannel<u32> = CommandChannel::new();
    channel.close_consumer();
    assert_eq!(channel.send(5), Err((ChannelError::Disconnected, 5)));
    assert_eq!(channel.len(), 0);
}

#[test]
fn channel_hands_over_pending_commands_with_the_disconnect() {
    let mut channel: CommandChannel<u32> = CommandChannel::new();
    assert!(channel.send(5).is_ok());
    assert!(channel.send(6).is_ok());
    channel.close_producer();
    assert_eq!(channel.drain(), Err((ChannelError::Disconnected, vec![5, 6])));
    assert_eq!(channel.drain(), Err((ChannelError::Disconnected, vec![])));
}

#[test]
fn geometry_ids_increase() {
    let mut ids = GeometryIds::new();
    let a = GeometryId::allocate(&mut ids).unwrap();
    let b = GeometryId::allocate(&mut ids).unwrap();
    assert_eq!(a, id(0));
    assert_eq!(b, id(1));
    assert_ne!(a, b);
}
