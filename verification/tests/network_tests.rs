use vortex_gpu_audio::network::{
    DeviceCapabilities, MessageType, OutputDevice, OutputManager, ProtocolMessage, WebSocketServer,
};

#[test]
fn test_manager_creation() {
    let manager = OutputManager::new();
    assert_eq!(manager.get_devices().len(), 0);
}

#[test]
fn test_device_selection() {
    let mut manager = OutputManager::new();
    assert!(manager.select_device("test-device".to_string()).is_ok());
    assert_eq!(manager.get_selected_device(), Some(&"test-device".to_string()));
}

#[test]
fn manager_keeps_devices_in_order() {
    let mut manager = OutputManager::new();
    assert!(manager.get_selected_device().is_none());
    assert!(manager.enumerate_devices().is_ok());
    assert_eq!(manager.get_devices().len(), 0);
    manager.set_devices(vec![
        OutputDevice { id: "a".into(), name: "A".into(), sample_rate: 48000, channels: 2, is_default: true },
        OutputDevice { id: "b".into(), name: "B".into(), sample_rate: 96000, channels: 8, is_default: false },
    ]);
    let devices = manager.get_devices();
    assert_eq!(devices.len(), 2);
    assert_eq!(devices[0].id, "a");
    assert_eq!(devices[1].name, "B");
    assert_eq!(devices[1].sample_rate, 96000);
    assert!(devices[0].is_default);
}

#[test]
fn test_server_creation() {
    let server = WebSocketServer::new(9876);
    assert_eq!(server.port(), 9876);
    assert!(!server.is_running());
}

#[test]
fn websocket_test_start_stop() {
    let mut server = WebSocketServer::new(9876);
    assert!(server.start().is_ok());
    assert!(server.is_running());
    assert!(server.stop().is_ok());
    assert!(!server.is_running());
}

#[test]
fn broadcast_succeeds_and_keeps_the_state() {
    let mut server = WebSocketServer::new(1);
    let message = ProtocolMessage::new(MessageType::VuMeter, vec![1, 2, 3], 1_700_000_000_000);
    assert_eq!(message.timestamp, 1_700_000_000_000);
    assert_eq!(message.message_type, MessageType::VuMeter);
    assert_eq!(message.data, vec![1, 2, 3]);
    assert!(server.broadcast(&message).is_ok());
    assert!(!server.is_running());
    server.start().unwrap();
    assert!(server.broadcast(&message).is_ok());
    assert!(server.is_running());
}

#[test]
fn device_capabilities_bound_rate_and_channels() {
    let caps = DeviceCapabilities {
        max_sample_rate: 192000,
        max_channels: 2,
        supported_formats: vec!["pcm".to_string()],
        latency_ms: 20,
    };
    assert!(caps.supports(192000, 2));
    assert!(caps.supports(44100, 1));
    assert!(!caps.supports(192001, 2));
    assert!(!caps.supports(48000, 3));
}
