use bg_core::output::{
    filter_outputs_by_names, get_output_by_name, select_outputs, DisplayState, OutputEvent,
    SeatEvent,
};
use bg_core::OutputInfo;

fn output_named(id: u32, name: &str) -> OutputInfo {
    OutputInfo {
        protocol_id: id,
        name: name.to_string(),
        description: String::new(),
        x: 0,
        y: 0,
        scale: 1,
        physical_width: 0,
        physical_height: 0,
        make: String::new(),
        model: String::new(),
        subpixel_orientation: String::new(),
        output_transform: String::new(),
        modes: Vec::new(),
    }
}

#[test]
fn events_build_an_output_record() {
    let mut st = DisplayState::new();
    let idx = st.ensure_output(7);
    assert_eq!(idx, 0);
    st.apply_output_event_at(idx, OutputEvent::Name { name: "DP-1".to_string() });
    st.apply_output_event_at(
        idx,
        OutputEvent::Geometry {
            x: 10,
            y: 20,
            physical_width: 600,
            physical_height: 340,
            make: "ACME".to_string(),
            model: "M27".to_string(),
            subpixel_orientation: "Unknown".to_string(),
            output_transform: "Normal".to_string(),
        },
    );
    st.apply_output_event_at(idx, OutputEvent::Scale { factor: 2 });
    st.apply_output_event_at(
        idx,
        OutputEvent::Mode { width: 2560, height: 1440, refresh: 144000, current: true, preferred: true },
    );
    st.apply_output_event_at(idx, OutputEvent::Done);

    assert_eq!(st.outputs.len(), 1);
    let o = &st.outputs[0];
    assert_eq!(o.protocol_id, 7);
    assert_eq!(o.name, "DP-1");
    assert_eq!((o.x, o.y), (10, 20));
    assert_eq!((o.physical_width, o.physical_height), (600, 340));
    assert_eq!(o.make, "ACME");
    assert_eq!(o.model, "M27");
    assert_eq!(o.scale, 2);
    assert_eq!(o.modes.len(), 1);
    let m = &o.modes[0];
    assert_eq!((m.width, m.height, m.refresh), (2560, 1440, 144000));
    assert_eq!(m.flags, vec!["current", "preferred"]);
}

#[test]
fn one_record_per_output_identity() {
    let mut st = DisplayState::new();
    let a = st.ensure_output(1);
    let b = st.ensure_output(2);
    let a_again = st.ensure_output(1);
    assert_eq!(a, 0);
    assert_eq!(b, 1);
    assert_eq!(a_again, 0);
    assert_eq!(st.outputs.len(), 2);
}

#[test]
fn mode_flags_can_be_empty() {
    let mut st = DisplayState::new();
    let idx = st.ensure_output(3);
    st.apply_output_event_at(
        idx,
        OutputEvent::Mode { width: 800, height: 600, refresh: 60000, current: false, preferred: false },
    );
    assert_eq!(st.outputs[0].modes[0].flags, Vec::<String>::new());
}

#[test]
fn events_build_a_seat_record() {
    let mut st = DisplayState::new();
    let idx = st.ensure_seat(4);
    st.apply_seat_event_at(idx, SeatEvent::Name { name: "seat0".to_string() });
    st.apply_seat_event_at(
        idx,
        SeatEvent::Capabilities { keyboard: true, pointer: false, touch: true },
    );
    assert_eq!(st.seats.len(), 1);
    let s = &st.seats[0];
    assert_eq!(s.protocol_id, 4);
    assert_eq!(s.name, "seat0");
    assert_eq!(s.capabilities, vec!["keyboard", "touch"]);
}

#[test]
fn capabilities_events_replace_earlier_flags() {
    let mut st = DisplayState::new();
    let idx = st.ensure_seat(4);
    st.apply_seat_event_at(
        idx,
        SeatEvent::Capabilities { keyboard: true, pointer: true, touch: true },
    );
    st.apply_seat_event_at(
        idx,
        SeatEvent::Capabilities { keyboard: false, pointer: true, touch: false },
    );
    assert_eq!(st.seats[0].capabilities, vec!["pointer"]);
}

#[test]
fn no_filter_keeps_every_output() {
    let outputs = vec![output_named(1, "DP-1"), output_named(2, "HDMI-A-1")];
    let r = filter_outputs_by_names(outputs, None);
    assert_eq!(r.len(), 2);
}

#[test]
fn filtering_keeps_matches_and_drops_unknown_names_silently() {
    let outputs = vec![output_named(1, "DP-1"), output_named(2, "HDMI-A-1")];
    let names = vec!["HDMI-A-1".to_string(), "LVDS-1".to_string()];
    let r = filter_outputs_by_names(outputs, Some(names));
    assert_eq!(r.len(), 1);
    assert_eq!(r[0].name, "HDMI-A-1");
}

#[test]
fn filtering_to_nothing_is_empty() {
    let outputs = vec![output_named(1, "DP-1")];
    let r = select_outputs(outputs, Some(vec!["eDP-1".to_string()]));
    assert!(r.is_empty());
}

#[test]
fn outputs_are_found_by_name() {
    let outputs = vec![output_named(1, "DP-1"), output_named(2, "HDMI-A-1")];
    let found = get_output_by_name(outputs, &"HDMI-A-1".to_string()).unwrap();
    assert_eq!(found.protocol_id, 2);
    let outputs = vec![output_named(1, "DP-1")];
    assert!(get_output_by_name(outputs, &"HDMI-A-1".to_string()).is_none());
}
