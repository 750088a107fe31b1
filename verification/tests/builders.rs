use rusty_vban::config::{BuildError, DeviceType, EmitterBuilder, ReceptorBuilder};

#[test]
fn emitter_requires_a_stream_name() {
    let r = EmitterBuilder::default().ip_address(b"127.0.0.1").build();
    assert!(matches!(r, Err(BuildError::MissingStreamName)));
}

#[test]
fn emitter_requires_a_peer_address() {
    let r = EmitterBuilder::default().stream_name(b"Mic").build();
    assert!(matches!(r, Err(BuildError::MissingIpAddress)));
}

#[test]
fn emitter_rejects_an_invalid_peer_address() {
    let r = EmitterBuilder::default()
        .stream_name(b"Mic")
        .ip_address(b"999.0.0.1")
        .build();
    assert!(matches!(r, Err(BuildError::InvalidIpAddress)));
}

#[test]
fn emitter_rejects_an_invalid_device_type() {
    let r = EmitterBuilder::default()
        .stream_name(b"Mic")
        .ip_address(b"127.0.0.1")
        .device_type(b"sideways")
        .build();
    assert!(matches!(r, Err(BuildError::InvalidDeviceType)));
}

#[test]
fn emitter_defaults_fill_the_config() {
    let cfg = EmitterBuilder::default()
        .stream_name(b"Mic")
        .ip_address(b"10.0.0.7")
        .build()
        .expect("a complete configuration must build");
    assert_eq!(cfg.stream_name, b"Mic".to_vec());
    assert_eq!(cfg.channels, 2);
    assert_eq!(cfg.ip_address.a, 10);
    assert_eq!(cfg.ip_address.d, 7);
    assert_eq!(cfg.port, 6980);
    assert_eq!(cfg.device, b"default".to_vec());
    assert_eq!(cfg.device_type, DeviceType::Input);
    assert_eq!(cfg.backend, b"default".to_vec());
}

#[test]
fn emitter_setters_override_the_defaults() {
    let cfg = EmitterBuilder::default()
        .stream_name(b"Line")
        .channels(4)
        .ip_address(b"192.168.1.2")
        .port(7000)
        .device(b"usb-card")
        .device_type(b"output")
        .backend(b"alsa")
        .build()
        .expect("a complete configuration must build");
    assert_eq!(cfg.stream_name, b"Line".to_vec());
    assert_eq!(cfg.channels, 4);
    assert_eq!(cfg.port, 7000);
    assert_eq!(cfg.device, b"usb-card".to_vec());
    assert_eq!(cfg.device_type, DeviceType::Output);
    assert_eq!(cfg.backend, b"alsa".to_vec());
}

#[test]
fn receptor_defaults_fill_the_config() {
    let cfg = ReceptorBuilder::default()
        .stream_name(b"Mic")
        .ip_address(b"127.0.0.1")
        .build()
        .expect("a complete configuration must build");
    assert_eq!(cfg.latency, 16);
    assert_eq!(cfg.channels, 2);
    assert_eq!(cfg.port, 6980);
    assert_eq!(cfg.device_type, DeviceType::Output);
}

#[test]
fn receptor_latency_is_carried_through() {
    let cfg = ReceptorBuilder::default()
        .latency(50)
        .stream_name(b"Mic")
        .ip_address(b"127.0.0.1")
        .build()
        .unwrap();
    assert_eq!(cfg.latency, 50);
}

#[test]
fn receptor_reports_missing_fields_in_order() {
    assert!(matches!(
        ReceptorBuilder::default().build(),
        Err(BuildError::MissingStreamName)
    ));
    assert!(matches!(
        ReceptorBuilder::default().stream_name(b"Mic").build(),
        Err(BuildError::MissingIpAddress)
    ));
    assert!(matches!(
        ReceptorBuilder::default()
            .stream_name(b"Mic")
            .ip_address(b"nowhere")
            .build(),
        Err(BuildError::InvalidIpAddress)
    ));
}
