//! Display outputs and seats.
//!
//! The display server is an external collaborator: it is queried once per
//! orchestration run and answers with a stream of events per output and seat.
//! The records built from those events are plain data, and applying an event
//! to the record store is verified here; only the connection and the event
//! decoding live outside the library.

use vstd::prelude::*;
use vstd::string::StringExecFns;

verus! {

/// One display mode a physical output offers.
#[derive(Debug)]
pub struct OutputMode {
    pub width: i32,
    pub height: i32,
    pub refresh: i32,
    pub flags: Vec<String>,
}

/// One display output: identity, unique name, geometry and its modes.
#[derive(Debug)]
pub struct OutputInfo {
    pub protocol_id: u32,
    pub name: String,
    pub description: String,
    pub x: i32,
    pub y: i32,
    pub scale: i32,
    pub physical_width: i32,
    pub physical_height: i32,
    pub make: String,
    pub model: String,
    pub subpixel_orientation: String,
    pub output_transform: String,
    pub modes: Vec<OutputMode>,
}

/// One input seat and its capabilities.
#[derive(Debug)]
pub struct SeatInfo {
    pub protocol_id: u32,
    pub name: String,
    pub capabilities: Vec<String>,
}

/// An event the display server reports about one output.
#[derive(Debug)]
pub enum OutputEvent {
    Name { name: String },
    Description { description: String },
    Geometry {
        x: i32,
        y: i32,
        physical_width: i32,
        physical_height: i32,
        make: String,
        model: String,
        subpixel_orientation: String,
        output_transform: String,
    },
    Scale { factor: i32 },
    Mode { width: i32, height: i32, refresh: i32, current: bool, preferred: bool },
    Done,
}

/// An event the display server reports about one seat.
#[derive(Debug)]
pub enum SeatEvent {
    Name { name: String },
    Capabilities { keyboard: bool, pointer: bool, touch: bool },
}

/// A freshly created output record: the given identity, everything else
/// empty, scale one.
pub open spec fn is_default_output(o: OutputInfo, id: u32) -> bool {
    &&& o.protocol_id == id
    &&& o.name@ == Seq::<char>::empty()
    &&& o.description@ == Seq::<char>::empty()
    &&& o.x == 0
    &&& o.y == 0
    &&& o.scale == 1
    &&& o.physical_width == 0
    &&& o.physical_height == 0
    &&& o.make@ == Seq::<char>::empty()
    &&& o.model@ == Seq::<char>::empty()
    &&& o.subpixel_orientation@ == Seq::<char>::empty()
    &&& o.output_transform@ == Seq::<char>::empty()
    &&& o.modes@ == Seq::<OutputMode>::empty()
}

/// A freshly created seat record.
pub open spec fn is_default_seat(s: SeatInfo, id: u32) -> bool {
    &&& s.protocol_id == id
    &&& s.name@ == Seq::<char>::empty()
    &&& s.capabilities@ == Seq::<String>::empty()
}

/// The flag names a display mode carries, in the order they are recorded.
pub open spec fn spec_mode_flags(current: bool, preferred: bool) -> Seq<Seq<char>> {
    (if current {
        seq!["current"@]
    } else {
        Seq::<Seq<char>>::empty()
    }) + (if preferred {
        seq!["preferred"@]
    } else {
        Seq::<Seq<char>>::empty()
    })
}

/// The capability names a seat reports, in the order they are recorded.
pub open spec fn spec_seat_caps(keyboard: bool, pointer: bool, touch: bool) -> Seq<Seq<char>> {
    (if keyboard {
        seq!["keyboard"@]
    } else {
        Seq::<Seq<char>>::empty()
    }) + (if pointer {
        seq!["pointer"@]
    } else {
        Seq::<Seq<char>>::empty()
    }) + (if touch {
        seq!["touch"@]
    } else {
        Seq::<Seq<char>>::empty()
    })
}

/// How one output event turns the record `prev` into `next`.
pub open spec fn output_event_applied(prev: OutputInfo, next: OutputInfo, ev: OutputEvent) -> bool {
    match ev {
        OutputEvent::Name { name } => next == (OutputInfo { name, ..prev }),
        OutputEvent::Description { description } => next == (OutputInfo { description, ..prev }),
        OutputEvent::Geometry {
            x,
            y,
            physical_width,
            physical_height,
            make,
            model,
            subpixel_orientation,
            output_transform,
        } => next == (OutputInfo {
            x,
            y,
            physical_width,
            physical_height,
            make,
            model,
            subpixel_orientation,
            output_transform,
            ..prev
        }),
        OutputEvent::Scale { factor } => next == (OutputInfo { scale: factor, ..prev }),
        OutputEvent::Mode { width, height, refresh, current, preferred } => {
            &&& next == (OutputInfo { modes: next.modes, ..prev })
            &&& next.modes@.len() == prev.modes@.len() + 1
            &&& (forall|j: int| 0 <= j < prev.modes@.len() ==> next.modes@[j] == prev.modes@[j])
            &&& next.modes@.last().width == width
            &&& next.modes@.last().height == height
            &&& next.modes@.last().refresh == refresh
            &&& next.modes@.last().flags.deep_view() == spec_mode_flags(current, preferred)
        },
        OutputEvent::Done => next == prev,
    }
}

/// How one seat event turns the record `prev` into `next`.
pub open spec fn seat_event_applied(prev: SeatInfo, next: SeatInfo, ev: SeatEvent) -> bool {
    match ev {
        SeatEvent::Name { name } => next == (SeatInfo { name, ..prev }),
        SeatEvent::Capabilities { keyboard, pointer, touch } => {
            &&& next == (SeatInfo { capabilities: next.capabilities, ..prev })
            &&& next.capabilities.deep_view() == spec_seat_caps(keyboard, pointer, touch)
        },
    }
}

/// Build the flag list of a display mode.
fn mode_flags(current: bool, preferred: bool) -> (r: Vec<String>)
    ensures
        r.deep_view() == spec_mode_flags(current, preferred),
{
    let mut r: Vec<String> = Vec::new();
    if current {
        r.push(String::from_str("current"));
    }
    if preferred {
        r.push(String::from_str("preferred"));
    }
    proof {
        assert(r.deep_view() =~= spec_mode_flags(current, preferred));
    }
    r
}

/// Build the capability list of a seat.
fn seat_caps(keyboard: bool, pointer: bool, touch: bool) -> (r: Vec<String>)
    ensures
        r.deep_view() == spec_seat_caps(keyboard, pointer, touch),
{
    let mut r: Vec<String> = Vec::new();
    if keyboard {
        r.push(String::from_str("keyboard"));
    }
    if pointer {
        r.push(String::from_str("pointer"));
    }
    if touch {
        r.push(String::from_str("touch"));
    }
    proof {
        assert(r.deep_view() =~= spec_seat_caps(keyboard, pointer, touch));
    }
    r
}

/// Apply one display-server event to an output record.
pub fn apply_output_event(info: &mut OutputInfo, ev: OutputEvent)
    ensures
        output_event_applied(*old(info), *final(info), ev),
{
    match ev {
        OutputEvent::Name { name } => {
            info.name = name;
        },
        OutputEvent::Description { description } => {
            info.description = description;
        },
        OutputEvent::Geometry {
            x,
            y,
            physical_width,
            physical_height,
            make,
            model,
            subpixel_orientation,
            output_transform,
        } => {
            info.x = x;
            info.y = y;
            info.physical_width = physical_width;
            info.physical_height = physical_height;
            info.make = make;
            info.model = model;
            info.subpixel_orientation = subpixel_orientation;
            info.output_transform = output_transform;
        },
        OutputEvent::Scale { factor } => {
            info.scale = factor;
        },
        OutputEvent::Mode { width, height, refresh, current, preferred } => {
            let flags = mode_flags(current, preferred);
            info.modes.push(OutputMode { width, height, refresh, flags });
        },
        OutputEvent::Done => {},
    }
}

/// Apply one display-server event to a seat record.
pub fn apply_seat_event(info: &mut SeatInfo, ev: SeatEvent)
    ensures
        seat_event_applied(*old(info), *final(info), ev),
{
    match ev {
        SeatEvent::Name { name } => {
            info.name = name;
        },
        SeatEvent::Capabilities { keyboard, pointer, touch } => {
            info.capabilities = seat_caps(keyboard, pointer, touch);
        },
    }
}

/// The first index holding an output with the given identity.
pub open spec fn spec_output_index(s: Seq<OutputInfo>, id: u32, i: int) -> Option<int>
    decreases s.len() - i,
{
    if i < 0 || i >= s.len() {
        None
    } else if s[i].protocol_id == id {
        Some(i)
    } else {
        spec_output_index(s, id, i + 1)
    }
}

/// The first index holding a seat with the given identity.
pub open spec fn spec_seat_index(s: Seq<SeatInfo>, id: u32, i: int) -> Option<int>
    decreases s.len() - i,
{
    if i < 0 || i >= s.len() {
        None
    } else if s[i].protocol_id == id {
        Some(i)
    } else {
        spec_seat_index(s, id, i + 1)
    }
}

/// No two output records share an identity.
pub open spec fn unique_output_ids(s: Seq<OutputInfo>) -> bool {
    forall|i: int, j: int|
        0 <= i < j < s.len() ==> (#[trigger] s[i]).protocol_id != (#[trigger] s[j]).protocol_id
}

/// No two seat records share an identity.
pub open spec fn unique_seat_ids(s: Seq<SeatInfo>) -> bool {
    forall|i: int, j: int|
        0 <= i < j < s.len() ==> (#[trigger] s[i]).protocol_id != (#[trigger] s[j]).protocol_id
}

proof fn lemma_output_index_none_means_absent(s: Seq<OutputInfo>, id: u32, i: int)
    requires
        0 <= i <= s.len(),
        spec_output_index(s, id, i) is None,
    ensures
        forall|j: int| i <= j < s.len() ==> (#[trigger] s[j]).protocol_id != id,
    decreases s.len() - i,
{
    if i < s.len() {
        lemma_output_index_none_means_absent(s, id, i + 1);
    }
}

proof fn lemma_seat_index_none_means_absent(s: Seq<SeatInfo>, id: u32, i: int)
    requires
        0 <= i <= s.len(),
        spec_seat_index(s, id, i) is None,
    ensures
        forall|j: int| i <= j < s.len() ==> (#[trigger] s[j]).protocol_id != id,
    decreases s.len() - i,
{
    if i < s.len() {
        lemma_seat_index_none_means_absent(s, id, i + 1);
    }
}

/// The records built from one display-server query: outputs and seats, each
/// identified by its protocol id.
pub struct DisplayState {
    pub outputs: Vec<OutputInfo>,
    pub seats: Vec<SeatInfo>,
}

impl DisplayState {
    /// An empty record store.
    pub fn new() -> (r: DisplayState)
        ensures
            r.outputs@ == Seq::<OutputInfo>::empty(),
            r.seats@ == Seq::<SeatInfo>::empty(),
    {
        DisplayState { outputs: Vec::new(), seats: Vec::new() }
    }

    /// Find the record for output `id`, creating a fresh one when the id is
    /// new, and return its index.
    pub fn ensure_output(&mut self, id: u32) -> (idx: usize)
        ensures
            final(self).seats@ == old(self).seats@,
            unique_output_ids(old(self).outputs@) ==> unique_output_ids(final(self).outputs@),
            match spec_output_index(old(self).outputs@, id, 0) {
                Some(i) => final(self).outputs@ == old(self).outputs@ && idx == i,
                None => {
                    &&& final(self).outputs@.len() == old(self).outputs@.len() + 1
                    &&& (forall|j: int|
                        0 <= j < old(self).outputs@.len() ==> final(self).outputs@[j] == old(
                            self,
                        ).outputs@[j])
                    &&& idx == old(self).outputs@.len()
                    &&& is_default_output(final(self).outputs@.last(), id)
                },
            },
    {
        let n = self.outputs.len();
        let mut i: usize = 0;
        while i < n
            invariant
                n == self.outputs@.len(),
                0 <= i <= n,
                spec_output_index(self.outputs@, id, 0) == spec_output_index(
                    self.outputs@,
                    id,
                    i as int,
                ),
                forall|j: int| 0 <= j < i ==> self.outputs@[j].protocol_id != id,
            decreases n - i,
        {
            if self.outputs[i].protocol_id == id {
                return i;
            }
            proof {
                lemma_output_index_step(self.outputs@, id, i as int);
            }
            i += 1;
        }
        let fresh = OutputInfo {
            protocol_id: id,
            name: String::new(),
            description: String::new(),
            x: 0,
            y: 0,
            scale: 1,
            physical_width: 0,
            physical_height: 0,
            make: String::new(),
            model: String::new(),
            subpixel_orientation: String::new(),
            output_transform: String::new(),
            modes: Vec::new(),
        };
        proof {
            lemma_output_index_none_means_absent(self.outputs@, id, 0);
        }
        self.outputs.push(fresh);
        n
    }

    /// Find the record for seat `id`, creating a fresh one when the id is
    /// new, and return its index.
    pub fn ensure_seat(&mut self, id: u32) -> (idx: usize)
        ensures
            final(self).outputs@ == old(self).outputs@,
            unique_seat_ids(old(self).seats@) ==> unique_seat_ids(final(self).seats@),
            match spec_seat_index(old(self).seats@, id, 0) {
                Some(i) => final(self).seats@ == old(self).seats@ && idx == i,
                None => {
                    &&& final(self).seats@.len() == old(self).seats@.len() + 1
                    &&& (forall|j: int|
                        0 <= j < old(self).seats@.len() ==> final(self).seats@[j] == old(
                            self,
                        ).seats@[j])
                    &&& idx == old(self).seats@.len()
                    &&& is_default_seat(final(self).seats@.last(), id)
                },
            },
    {
        let n = self.seats.len();
        let mut i: usize = 0;
        while i < n
            invariant
                n == self.seats@.len(),
                0 <= i <= n,
                spec_seat_index(self.seats@, id, 0) == spec_seat_index(self.seats@, id, i as int),
                forall|j: int| 0 <= j < i ==> self.seats@[j].protocol_id != id,
            decreases n - i,
        {
            if self.seats[i].protocol_id == id {
                return i;
            }
            proof {
                lemma_seat_index_step(self.seats@, id, i as int);
            }
            i += 1;
        }
        let fresh = SeatInfo { protocol_id: id, name: String::new(), capabilities: Vec::new() };
        proof {
            lemma_seat_index_none_means_absent(self.seats@, id, 0);
        }
        self.seats.push(fresh);
        n
    }

    /// Apply one output event to the record at `idx`; the other records stay
    /// as they were.
    pub fn apply_output_event_at(&mut self, idx: usize, ev: OutputEvent)
        requires
            idx < old(self).outputs@.len(),
        ensures
            final(self).seats@ == old(self).seats@,
            final(self).outputs@.len() == old(self).outputs@.len(),
            forall|j: int|
                0 <= j < old(self).outputs@.len() && j != idx ==> final(self).outputs@[j] == old(
                    self,
                ).outputs@[j],
            output_event_applied(
                old(self).outputs@[idx as int],
                final(self).outputs@[idx as int],
                ev,
            ),
            final(self).outputs@[idx as int].protocol_id == old(self).outputs@[idx
                as int].protocol_id,
            unique_output_ids(old(self).outputs@) ==> unique_output_ids(final(self).outputs@),
    {
        let slot = &mut self.outputs[idx];
        apply_output_event(slot, ev);
    }

    /// Apply one seat event to the record at `idx`; the other records stay as
    /// they were.
    pub fn apply_seat_event_at(&mut self, idx: usize, ev: SeatEvent)
        requires
            idx < old(self).seats@.len(),
        ensures
            final(self).outputs@ == old(self).outputs@,
            final(self).seats@.len() == old(self).seats@.len(),
            forall|j: int|
                0 <= j < old(self).seats@.len() && j != idx ==> final(self).seats@[j] == old(
                    self,
                ).seats@[j],
            seat_event_applied(old(self).seats@[idx as int], final(self).seats@[idx as int], ev),
            final(self).seats@[idx as int].protocol_id == old(self).seats@[idx
                as int].protocol_id,
            unique_seat_ids(old(self).seats@) ==> unique_seat_ids(final(self).seats@),
    {
        let slot = &mut self.seats[idx];
        apply_seat_event(slot, ev);
    }
}

proof fn lemma_output_index_step(s: Seq<OutputInfo>, id: u32, i: int)
    requires
        0 <= i < s.len(),
        s[i].protocol_id != id,
    ensures
        spec_output_index(s, id, i) == spec_output_index(s, id, i + 1),
{
}

proof fn lemma_seat_index_step(s: Seq<SeatInfo>, id: u32, i: int)
    requires
        0 <= i < s.len(),
        s[i].protocol_id != id,
    ensures
        spec_seat_index(s, id, i) == spec_seat_index(s, id, i + 1),
{
}

/// A sequence of strings holds one whose characters are `v`.
pub open spec fn seq_has_view(names: Seq<Seq<char>>, v: Seq<char>) -> bool {
    exists|i: int| 0 <= i < names.len() && names[i] == v
}

/// Whether one of `names` spells the same characters as `s`.
pub fn contains_name(names: &Vec<String>, s: &String) -> (r: bool)
    ensures
        r == seq_has_view(names.deep_view(), s@),
{
    let mut i: usize = 0;
    while i < names.len()
        invariant
            0 <= i <= names@.len(),
            i <= names.len(),
            names.deep_view().len() == names@.len(),
            forall|j: int| 0 <= j < i ==> names.deep_view()[j] != s@,
        decreases names@.len() - i,
    {
        if names[i] == *s {
            proof {
                assert(names.deep_view()[i as int] == names@[i as int]@);
            }
            return true;
        }
        proof {
            assert(names.deep_view()[i as int] == names@[i as int]@);
        }
        i += 1;
    }
    false
}

/// The outputs among the first `n` of `s` whose name is one of `names`, in
/// their original order.
pub open spec fn spec_filter_outputs(
    s: Seq<OutputInfo>,
    names: Seq<Seq<char>>,
    n: int,
) -> Seq<OutputInfo>
    decreases n,
{
    if n <= 0 || n > s.len() {
        Seq::empty()
    } else if seq_has_view(names, s[n - 1].name@) {
        spec_filter_outputs(s, names, n - 1) + seq![s[n - 1]]
    } else {
        spec_filter_outputs(s, names, n - 1)
    }
}

/// Keep the outputs whose name is among `target_names`; with no name list,
/// keep them all. Names that match no output are dropped silently.
pub fn filter_outputs_by_names(
    outputs: Vec<OutputInfo>,
    target_names: Option<Vec<String>>,
) -> (r: Vec<OutputInfo>)
    ensures
        match target_names {
            None => r@ == outputs@,
            Some(names) => r@ == spec_filter_outputs(
                outputs@,
                names.deep_view(),
                outputs@.len() as int,
            ),
        },
{
    match target_names {
        None => outputs,
        Some(names) => {
            let mut rest = outputs;
            let ghost orig = rest@;
            let total = rest.len();
            let mut r: Vec<OutputInfo> = Vec::new();
            let mut k: usize = 0;
            while rest.len() > 0
                invariant
                    k <= total,
                    total == orig.len(),
                    rest@ == orig.subrange(k as int, orig.len() as int),
                    r@ == spec_filter_outputs(orig, names.deep_view(), k as int),
                decreases rest@.len(),
            {
                let o = rest.remove(0);
                proof {
                    assert(o == orig[k as int]);
                    assert(rest@ =~= orig.subrange(k + 1, orig.len() as int));
                }
                if contains_name(&names, &o.name) {
                    r.push(o);
                } else {
                }
                proof {
                    assert(r@ =~= spec_filter_outputs(orig, names.deep_view(), k + 1));
                }
                k += 1;
            }
            proof {
                assert(k == orig.len());
            }
            r
        },
    }
}

/// Keep the outputs whose name is among `target`; with no target list, all
/// existing outputs are selected.
pub fn select_outputs(existing: Vec<OutputInfo>, target: Option<Vec<String>>) -> (r: Vec<
    OutputInfo,
>)
    ensures
        match target {
            None => r@ == existing@,
            Some(names) => r@ == spec_filter_outputs(
                existing@,
                names.deep_view(),
                existing@.len() as int,
            ),
        },
{
    filter_outputs_by_names(existing, target)
}

/// The first output whose name spells `name`.
pub open spec fn spec_output_by_name(s: Seq<OutputInfo>, name: Seq<char>, i: int) -> Option<
    OutputInfo,
>
    decreases s.len() - i,
{
    if i < 0 || i >= s.len() {
        None
    } else if s[i].name@ == name {
        Some(s[i])
    } else {
        spec_output_by_name(s, name, i + 1)
    }
}

proof fn lemma_output_by_name_step(s: Seq<OutputInfo>, name: Seq<char>, i: int)
    requires
        0 <= i < s.len(),
        s[i].name@ != name,
    ensures
        spec_output_by_name(s, name, i) == spec_output_by_name(s, name, i + 1),
{
}

/// Find the first output with the given name.
pub fn get_output_by_name(outputs: Vec<OutputInfo>, name: &String) -> (r: Option<OutputInfo>)
    ensures
        r == spec_output_by_name(outputs@, name@, 0),
{
    let mut rest = outputs;
    let ghost orig = rest@;
    let total = rest.len();
    let mut k: usize = 0;
    while rest.len() > 0
        invariant
            k <= total,
            total == orig.len(),
            orig == outputs@,
            rest@ == orig.subrange(k as int, orig.len() as int),
            spec_output_by_name(orig, name@, 0) == spec_output_by_name(orig, name@, k as int),
        decreases rest@.len(),
    {
        let o = rest.remove(0);
        proof {
            assert(o == orig[k as int]);
            assert(rest@ =~= orig.subrange(k + 1, orig.len() as int));
        }
        if o.name == *name {
            proof {
                assert(spec_output_by_name(orig, name@, k as int) == Some(o));
            }
            return Some(o);
        }
        proof {
            lemma_output_by_name_step(orig, name@, k as int);
        }
        k += 1;
    }
    None
}

} // verus!
