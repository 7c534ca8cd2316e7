use audio_bridge::buffer::PollingBuffer;
use audio_bridge::device::{
    Device, DeviceCatalog, Direction, EnumerationError, SampleKind, StreamFormat,
};
use audio_bridge::host::{
    AudioHost, DeviceSwitchError, InitError, StreamStartError, SwitchOutcome, SwitchPlan,
};
use audio_bridge::registry::RegistryError;

const CD: StreamFormat = StreamFormat { kind: SampleKind::Signed16, rate: 44100 };
const STUDIO: StreamFormat = StreamFormat { kind: SampleKind::Real32, rate: 48000 };

fn mic(name: &str, default_format: StreamFormat, formats: Vec<StreamFormat>) -> Device {
    Device { name: name.to_string(), direction: Direction::Input, default_format, formats }
}

fn two_mics() -> DeviceCatalog {
    let devices = vec![mic("Mic A", CD, vec![]), mic("Mic B", STUDIO, vec![CD])];
    DeviceCatalog::enumerate(Some(devices), Some(0), None).unwrap()
}

fn host_on_two_mics() -> AudioHost {
    match AudioHost::initialize(true, two_mics()) {
        Ok(host) => host,
        Err(_) => panic!("the subsystem came up"),
    }
}

fn name_of_current(host: &AudioHost) -> String {
    host.current_device().unwrap().name().to_string()
}

#[test]
fn unreachable_platform_is_an_enumeration_error() {
    assert!(matches!(DeviceCatalog::enumerate(None, None, None), Err(EnumerationError)));
}

#[test]
fn dead_subsystem_is_an_init_error() {
    assert!(matches!(AudioHost::initialize(false, two_mics()), Err(InitError)));
}

#[test]
fn catalog_keeps_the_platform_order_and_defaults() {
    let devices = vec![
        mic("Mic A", CD, vec![]),
        Device {
            name: "Speakers".to_string(),
            direction: Direction::Output,
            default_format: STUDIO,
            formats: vec![],
        },
    ];
    let catalog = DeviceCatalog::enumerate(Some(devices), Some(0), Some(1)).unwrap();
    assert_eq!(catalog.len(), 2);
    assert_eq!(catalog.devices()[1].name(), "Speakers");
    assert_eq!(catalog.default_device(Direction::Input).unwrap().name(), "Mic A");
    assert_eq!(catalog.default_device(Direction::Output).unwrap().name(), "Speakers");
    assert_eq!(catalog.find_by_name(&"Speakers".to_string()), Some(1));
    assert_eq!(catalog.find_by_name(&"Headset".to_string()), None);
    assert!(catalog.get(2).is_none());
}

#[test]
fn default_of_the_wrong_direction_or_out_of_range_is_no_default() {
    let devices = vec![mic("Mic A", CD, vec![])];
    let catalog = DeviceCatalog::enumerate(Some(devices), Some(3), Some(0)).unwrap();
    assert!(catalog.default_device(Direction::Input).is_none());
    assert!(catalog.default_device(Direction::Output).is_none());
    assert_eq!(catalog.default_device_index(Direction::Input), None);
}

#[test]
fn first_of_two_devices_with_one_name_is_found() {
    let devices = vec![mic("Mic", CD, vec![]), mic("Mic", STUDIO, vec![])];
    let catalog = DeviceCatalog::enumerate(Some(devices), None, None).unwrap();
    assert_eq!(catalog.find_by_name(&"Mic".to_string()), Some(0));
}

#[test]
fn new_stream_keeps_the_format_in_use_where_the_device_offers_it() {
    let b = mic("Mic B", STUDIO, vec![CD]);
    assert!(b.supports(CD));
    assert!(b.supports(STUDIO));
    assert_eq!(b.choose_format(Some(CD)), CD);
    assert_eq!(b.choose_format(None), STUDIO);
    let a = mic("Mic A", CD, vec![]);
    assert!(!a.supports(STUDIO));
    assert_eq!(a.choose_format(Some(STUDIO)), CD);
}

#[test]
fn fresh_host_is_on_the_default_input_and_silent() {
    let host = host_on_two_mics();
    assert_eq!(host.devices().len(), 2);
    assert_eq!(host.current_device_index(), Some(0));
    assert_eq!(name_of_current(&host), "Mic A");
    let stream = host.stream().unwrap();
    assert_eq!(stream.id, 0);
    assert_eq!(stream.device, "Mic A");
    assert_eq!(stream.format, CD);
    assert!(!stream.running);
    assert_eq!(host.listeners().len(), 0);
    assert_eq!(host.listeners().bound_to(), None);
}

#[test]
fn host_without_any_device_has_no_selection_and_cannot_listen() {
    let catalog = DeviceCatalog::enumerate(Some(vec![]), None, None).unwrap();
    let mut host = match AudioHost::initialize(true, catalog) {
        Ok(host) => host,
        Err(_) => panic!("the subsystem came up"),
    };
    assert_eq!(host.current_device_index(), None);
    assert!(host.current_device().is_none());
    assert!(host.stream().is_none());
    assert_eq!(host.listen(true), Err(StreamStartError));
    assert_eq!(host.insert("polling".to_string(), PollingBuffer::new(4)), Ok(()));
    assert_eq!(host.poll("polling"), Some(vec![0u32; 4]));
    assert_eq!(
        host.change_device_by_index(0, SwitchOutcome::Ready),
        Err(DeviceSwitchError::OutOfRange)
    );
}

#[test]
fn switch_to_mic_b_then_out_of_range() {
    let mut host = host_on_two_mics();
    assert_eq!(host.current_device_index(), Some(0));
    assert_eq!(host.change_device_by_index(1, SwitchOutcome::Ready), Ok(()));
    assert_eq!(name_of_current(&host), "Mic B");
    assert_eq!(
        host.change_device_by_index(5, SwitchOutcome::Ready),
        Err(DeviceSwitchError::OutOfRange)
    );
    assert_eq!(name_of_current(&host), "Mic B");
}

#[test]
fn successful_switch_selects_every_valid_index() {
    for start in 0..2usize {
        for index in 0..2usize {
            let mut host = host_on_two_mics();
            assert_eq!(host.change_device_by_index(start, SwitchOutcome::Ready), Ok(()));
            assert_eq!(host.change_device_by_index(index, SwitchOutcome::Ready), Ok(()));
            assert_eq!(host.current_device_index(), Some(index));
        }
    }
}

#[test]
fn failed_switch_leaves_the_host_as_it_was() {
    let mut host = host_on_two_mics();
    assert_eq!(host.insert("polling".to_string(), PollingBuffer::new(2)), Ok(()));
    assert_eq!(host.listen(true), Ok(()));
    assert!(host.deliver(0, &[1, 2]));
    assert_eq!(
        host.change_device_by_index(1, SwitchOutcome::OpenFailed),
        Err(DeviceSwitchError::StreamStartFailed)
    );
    assert_eq!(
        host.change_device_by_index(1, SwitchOutcome::RebindFailed),
        Err(DeviceSwitchError::RebindFailed)
    );
    assert_eq!(
        host.change_device_by_index(2, SwitchOutcome::OpenFailed),
        Err(DeviceSwitchError::OutOfRange)
    );
    assert_eq!(host.current_device_index(), Some(0));
    let stream = host.stream().unwrap();
    assert_eq!((stream.id, stream.running, stream.format), (0, true, CD));
    assert_eq!(stream.device, "Mic A");
    assert_eq!(host.listeners().bound_to(), Some(0));
    assert!(host.deliver(0, &[3, 4]));
    assert_eq!(host.poll("polling"), Some(vec![3, 4]));
}

#[test]
fn plan_names_device_format_and_a_new_stream() {
    let mut host = host_on_two_mics();
    assert_eq!(host.plan_switch(1), Ok(SwitchPlan { index: 1, format: CD, stream: 1 }));
    assert_eq!(host.plan_switch(2), Err(DeviceSwitchError::OutOfRange));
    assert_eq!(host.change_device_by_index(1, SwitchOutcome::Ready), Ok(()));
    let stream = host.stream().unwrap();
    assert_eq!((stream.id, stream.format), (1, CD));
    assert_eq!(host.plan_switch(0), Ok(SwitchPlan { index: 0, format: CD, stream: 2 }));
}

#[test]
fn switch_falls_back_to_the_default_format_of_the_new_device() {
    let devices = vec![mic("Mic B", STUDIO, vec![]), mic("Mic A", CD, vec![])];
    let catalog = DeviceCatalog::enumerate(Some(devices), Some(0), None).unwrap();
    let mut host = match AudioHost::initialize(true, catalog) {
        Ok(host) => host,
        Err(_) => panic!("the subsystem came up"),
    };
    assert_eq!(host.stream().unwrap().format, STUDIO);
    assert_eq!(host.change_device_by_index(1, SwitchOutcome::Ready), Ok(()));
    assert_eq!(host.stream().unwrap().format, CD);
}

#[test]
fn switch_moves_every_listener_to_the_new_stream() {
    let mut host = host_on_two_mics();
    assert_eq!(host.insert("polling".to_string(), PollingBuffer::new(4)), Ok(()));
    assert_eq!(host.insert("meter".to_string(), PollingBuffer::new(1)), Ok(()));
    assert_eq!(host.listen(true), Ok(()));
    assert!(host.deliver(0, &[1, 2, 3, 4]));
    assert_eq!(host.change_device_by_index(1, SwitchOutcome::Ready), Ok(()));
    assert_eq!(host.listeners().len(), 2);
    assert_eq!(host.listeners().bound_to(), Some(1));
    assert!(host.stream().unwrap().running);
    assert_eq!(host.poll("polling"), Some(vec![1, 2, 3, 4]));
    assert!(!host.deliver(0, &[9, 9, 9, 9]));
    assert_eq!(host.poll("polling"), Some(vec![1, 2, 3, 4]));
    assert!(host.deliver(1, &[5, 6]));
    assert_eq!(host.poll("polling"), Some(vec![5, 6, 0, 0]));
    assert_eq!(host.poll("meter"), Some(vec![5]));
}

#[test]
fn nothing_is_delivered_before_listen() {
    let mut host = host_on_two_mics();
    assert_eq!(host.insert("polling".to_string(), PollingBuffer::new(2)), Ok(()));
    assert!(!host.deliver(0, &[1, 2]));
    assert_eq!(host.poll("polling"), Some(vec![0, 0]));
    assert_eq!(host.listen(false), Err(StreamStartError));
    assert!(!host.deliver(0, &[1, 2]));
    assert_eq!(host.listen(true), Ok(()));
    assert!(host.deliver(0, &[1, 2]));
    assert_eq!(host.poll("polling"), Some(vec![1, 2]));
}

#[test]
fn listen_without_listeners_is_legal() {
    let mut host = host_on_two_mics();
    assert_eq!(host.listen(true), Ok(()));
    assert!(host.stream().unwrap().running);
    assert!(host.deliver(0, &[1, 2]));
    assert_eq!(host.poll("polling"), None);
}

#[test]
fn host_refuses_duplicate_and_unknown_listeners() {
    let mut host = host_on_two_mics();
    assert_eq!(host.insert("x".to_string(), PollingBuffer::new(4)), Ok(()));
    assert_eq!(
        host.insert("x".to_string(), PollingBuffer::new(4)),
        Err(RegistryError::DuplicateName)
    );
    assert_eq!(host.remove("x"), Ok(()));
    assert_eq!(host.remove("x"), Err(RegistryError::NotFound));
}

#[test]
fn refresh_follows_the_active_device_by_name() {
    let mut host = host_on_two_mics();
    let reordered = vec![mic("Mic B", STUDIO, vec![CD]), mic("Mic A", CD, vec![])];
    host.refresh(DeviceCatalog::enumerate(Some(reordered), Some(1), None).unwrap());
    assert_eq!(host.current_device_index(), Some(1));
    assert_eq!(name_of_current(&host), "Mic A");
    let unplugged = vec![mic("Mic B", STUDIO, vec![CD])];
    host.refresh(DeviceCatalog::enumerate(Some(unplugged), Some(0), None).unwrap());
    assert_eq!(host.current_device_index(), None);
    assert!(host.current_device().is_none());
    assert_eq!(host.stream().unwrap().device, "Mic A");
    assert_eq!(host.change_device_by_index(0, SwitchOutcome::Ready), Ok(()));
    assert_eq!(name_of_current(&host), "Mic B");
}

#[test]
fn only_a_pick_of_another_device_asks_for_a_switch() {
    let mut host = host_on_two_mics();
    assert_eq!(host.requested_switch(0), None);
    assert_eq!(host.requested_switch(1), Some(1));
    let unplugged = vec![mic("Mic B", STUDIO, vec![CD])];
    host.refresh(DeviceCatalog::enumerate(Some(unplugged), Some(0), None).unwrap());
    assert_eq!(host.requested_switch(0), None);
}
