use vstd::prelude::*;
use std::collections::HashMap;
use crate::geometry::Vec2i;
use crate::idset::IdSet;

verus! {

broadcast use vstd::std_specs::hash::group_hash_axioms;

/// The id under which the mouse reports; each touch has its own id.
pub const MOUSE_ID: u64 = 0;

/// What the pressed/just-pressed/just-released sets of `Inputs` hold.
pub ghost struct InputsView {
    pub pressed: Set<u64>,
    pub just_pressed: Set<u64>,
    pub just_released: Set<u64>,
}

/// Which inputs are held, and which changed state during the current tick.
#[derive(Clone, Debug)]
pub struct Inputs {
    pressed: IdSet,
    just_pressed: IdSet,
    just_released: IdSet,
}

impl View for Inputs {
    type V = InputsView;

    closed spec fn view(&self) -> InputsView {
        InputsView {
            pressed: self.pressed@,
            just_pressed: self.just_pressed@,
            just_released: self.just_released@,
        }
    }
}

/// The view after pressing `id`: a new press is also recorded as fresh.
pub open spec fn press_view(v: InputsView, id: u64) -> InputsView {
    if v.pressed.contains(id) {
        v
    } else {
        InputsView {
            pressed: v.pressed.insert(id),
            just_pressed: v.just_pressed.insert(id),
            just_released: v.just_released,
        }
    }
}

/// The view after releasing `id`: releasing an input that is not held does nothing.
pub open spec fn release_view(v: InputsView, id: u64) -> InputsView {
    if v.pressed.contains(id) {
        InputsView {
            pressed: v.pressed.remove(id),
            just_pressed: v.just_pressed,
            just_released: v.just_released.insert(id),
        }
    } else {
        v
    }
}

/// The view with this tick's transitions forgotten.
pub open spec fn clear_view(v: InputsView) -> InputsView {
    InputsView {
        pressed: v.pressed,
        just_pressed: Set::empty(),
        just_released: Set::empty(),
    }
}

impl Inputs {
    pub closed spec fn wf(&self) -> bool {
        self.pressed.wf() && self.just_pressed.wf() && self.just_released.wf()
    }

    /// The held inputs, oldest press first.
    pub closed spec fn pressed_order(&self) -> Seq<u64> {
        self.pressed.order()
    }

    /// The inputs pressed during this tick, in order of press.
    pub closed spec fn just_pressed_order(&self) -> Seq<u64> {
        self.just_pressed.order()
    }

    pub proof fn lemma_orders(&self)
        requires
            self.wf(),
        ensures
            self.pressed_order().no_duplicates(),
            self.pressed_order().to_set() == self@.pressed,
            self.pressed_order().len() == self@.pressed.len(),
            self.just_pressed_order().no_duplicates(),
            self.just_pressed_order().to_set() == self@.just_pressed,
            self@.pressed.finite(),
    {
        self.pressed.lemma_order();
        self.just_pressed.lemma_order();
    }

    pub fn new() -> (r: Inputs)
        ensures
            r.wf(),
            r@.pressed == Set::<u64>::empty(),
            r@.just_pressed == Set::<u64>::empty(),
            r@.just_released == Set::<u64>::empty(),
    {
        Inputs { pressed: IdSet::new(), just_pressed: IdSet::new(), just_released: IdSet::new() }
    }

    /// Marks `input` as held; if it was not held, it is also marked as just pressed.
    pub fn press(&mut self, input: u64)
        requires
            old(self).wf(),
        ensures
            final(self).wf(),
            final(self)@ == press_view(old(self)@, input),
    {
        let ghost before = self@;
        if self.pressed.insert(input) {
            self.just_pressed.insert(input);
        } else {
            assert(before.pressed.insert(input) =~= before.pressed);
        }
    }

    pub fn pressed(&self, input: u64) -> (r: bool)
        ensures
            r == self@.pressed.contains(input),
    {
        self.pressed.contains(input)
    }

    /// Marks `input` as no longer held; if it was held, it is also marked as just released.
    pub fn release(&mut self, input: u64)
        requires
            old(self).wf(),
        ensures
            final(self).wf(),
            final(self)@ == release_view(old(self)@, input),
    {
        let ghost before = self@;
        if self.pressed.remove(input) {
            self.just_released.insert(input);
        } else {
            assert(before.pressed.remove(input) =~= before.pressed);
        }
    }

    pub fn just_pressed(&self, input: u64) -> (r: bool)
        ensures
            r == self@.just_pressed.contains(input),
    {
        self.just_pressed.contains(input)
    }

    pub fn just_released(&self, input: u64) -> (r: bool)
        ensures
            r == self@.just_released.contains(input),
    {
        self.just_released.contains(input)
    }

    /// The inputs pressed during this tick, in order of press.
    pub fn iter_just_pressed(&self) -> (v: Vec<u64>)
        ensures
            v@ == self.just_pressed_order(),
    {
        self.just_pressed.to_vec()
    }

    /// The held inputs, oldest press first.
    pub fn iter_pressed(&self) -> (v: Vec<u64>)
        ensures
            v@ == self.pressed_order(),
    {
        self.pressed.to_vec()
    }

    /// How many inputs are held.
    pub fn pressed_count(&self) -> (n: usize)
        requires
            self.wf(),
        ensures
            n == self@.pressed.len(),
    {
        self.pressed.len()
    }

    /// Forgets this tick's transitions; held inputs stay held.
    pub fn clear(&mut self)
        requires
            old(self).wf(),
        ensures
            final(self).wf(),
            final(self)@ == clear_view(old(self)@),
    {
        self.just_pressed.clear();
        self.just_released.clear();
    }
}

/// The last known screen position of each input.
#[derive(Clone, Debug)]
pub struct UserInputPosition(pub HashMap<u64, Vec2i>);

impl UserInputPosition {
    pub fn new() -> (r: UserInputPosition)
        ensures
            r.0@ == Map::<u64, Vec2i>::empty(),
    {
        UserInputPosition(HashMap::new())
    }

    pub fn get(&self, id: u64) -> (r: Option<Vec2i>)
        ensures
            r == (if self.0@.contains_key(id) { Some(self.0@[id]) } else { None::<Vec2i> }),
    {
        match self.0.get(&id) {
            Some(p) => Some(*p),
            None => None,
        }
    }

    /// Records `position` for `id`, or forgets `id` when there is none.
    pub fn set(&mut self, id: u64, position: Option<Vec2i>)
        ensures
            final(self).0@ == (match position {
                Some(p) => old(self).0@.insert(id, p),
                None => old(self).0@.remove(id),
            }),
    {
        match position {
            Some(p) => {
                self.0.insert(id, p);
            }
            None => {
                self.0.remove(&id);
            }
        }
    }
}

} // verus!

verus! {

/// One raw pointer event of a tick.
#[derive(Clone, Copy, Debug, PartialEq, Eq, Structural)]
pub enum InputEvent {
    /// A touch began, or the mouse button went down, at `position`.
    Press { id: u64, position: Vec2i },
    /// The pointer `id` is now at `position`.
    Move { id: u64, position: Vec2i },
    /// A touch ended, or the mouse button went up.
    Release { id: u64 },
    /// The pointer `id` has no known position any more (the cursor left the
    /// window); whether it is held does not change.
    Leave { id: u64 },
}

/// Held inputs with their transitions, and the last position of each pointer.
pub ghost struct ContactsView {
    pub inputs: InputsView,
    pub positions: Map<u64, Vec2i>,
}

/// The effect of one event on the contacts.
pub open spec fn event_step(v: ContactsView, e: InputEvent) -> ContactsView {
    match e {
        InputEvent::Press { id, position } => ContactsView {
            inputs: press_view(v.inputs, id),
            positions: v.positions.insert(id, position),
        },
        InputEvent::Move { id, position } => ContactsView {
            inputs: v.inputs,
            positions: v.positions.insert(id, position),
        },
        InputEvent::Release { id } => ContactsView {
            inputs: release_view(v.inputs, id),
            positions: v.positions.remove(id),
        },
        InputEvent::Leave { id } => ContactsView { inputs: v.inputs, positions: v.positions.remove(id) },
    }
}

/// The effect of a run of events, applied in order.
pub open spec fn apply_events(v: ContactsView, es: Seq<InputEvent>) -> ContactsView
    decreases es.len(),
{
    if es.len() == 0 {
        v
    } else {
        event_step(apply_events(v, es.drop_last()), es.last())
    }
}

/// A held input, as consumers read it.
#[derive(Clone, Copy, Debug, PartialEq, Eq, Structural)]
pub struct InputContact {
    pub id: u64,
    pub position: Option<Vec2i>,
    pub just_pressed: bool,
    pub just_released: bool,
}

pub open spec fn contact_of(v: ContactsView, id: u64) -> InputContact {
    InputContact {
        id,
        position: if v.positions.contains_key(id) { Some(v.positions[id]) } else { None },
        just_pressed: v.inputs.just_pressed.contains(id),
        just_released: v.inputs.just_released.contains(id),
    }
}

/// Normalises pointer events into the set of current contacts.
#[derive(Clone, Debug)]
pub struct InputAggregator {
    pub inputs: Inputs,
    pub positions: UserInputPosition,
}

impl View for InputAggregator {
    type V = ContactsView;

    open spec fn view(&self) -> ContactsView {
        ContactsView { inputs: self.inputs@, positions: self.positions.0@ }
    }
}

impl InputAggregator {
    pub open spec fn wf(&self) -> bool {
        self.inputs.wf()
    }

    pub fn new() -> (r: InputAggregator)
        ensures
            r.wf(),
            r@.inputs.pressed == Set::<u64>::empty(),
            r@.inputs.just_pressed == Set::<u64>::empty(),
            r@.inputs.just_released == Set::<u64>::empty(),
            r@.positions == Map::<u64, Vec2i>::empty(),
    {
        InputAggregator { inputs: Inputs::new(), positions: UserInputPosition::new() }
    }

    fn apply(&mut self, e: InputEvent)
        requires
            old(self).wf(),
        ensures
            final(self).wf(),
            final(self)@ == event_step(old(self)@, e),
    {
        match e {
            InputEvent::Press { id, position } => {
                self.inputs.press(id);
                self.positions.set(id, Some(position));
            },
            InputEvent::Move { id, position } => {
                self.positions.set(id, Some(position));
            },
            InputEvent::Release { id } => {
                self.inputs.release(id);
                self.positions.set(id, None);
            },
            InputEvent::Leave { id } => {
                self.positions.set(id, None);
            },
        }
    }

    /// Starts a tick: forgets the last tick's transitions, then applies this
    /// tick's events in order.
    pub fn update(&mut self, events: &Vec<InputEvent>)
        requires
            old(self).wf(),
        ensures
            final(self).wf(),
            final(self)@ == apply_events(
                ContactsView { inputs: clear_view(old(self)@.inputs), positions: old(self)@.positions },
                events@,
            ),
    {
        self.inputs.clear();
        let ghost start = self@;
        let mut i: usize = 0;
        while i < events.len()
            invariant
                0 <= i <= events@.len(),
                self.wf(),
                start == (ContactsView { inputs: clear_view(old(self)@.inputs), positions: old(self)@.positions }),
                self@ == apply_events(start, events@.subrange(0, i as int)),
            decreases events@.len() - i,
        {
            self.apply(events[i]);
            assert(events@.subrange(0, i + 1).drop_last() =~= events@.subrange(0, i as int));
            i += 1;
        }
        assert(events@.subrange(0, events@.len() as int) =~= events@);
    }

    /// The held inputs, oldest press first.
    pub fn contacts(&self) -> (r: Vec<InputContact>)
        ensures
            r@.len() == self.inputs.pressed_order().len(),
            forall|i: int| 0 <= i < r@.len() ==> #[trigger] r@[i] == contact_of(self@, self.inputs.pressed_order()[i]),
    {
        let ids = self.inputs.iter_pressed();
        let mut r: Vec<InputContact> = Vec::new();
        let mut i: usize = 0;
        while i < ids.len()
            invariant
                0 <= i <= ids@.len(),
                ids@ == self.inputs.pressed_order(),
                r@.len() == i,
                forall|k: int| 0 <= k < i ==> #[trigger] r@[k] == contact_of(self@, ids@[k]),
            decreases ids@.len() - i,
        {
            let id = ids[i];
            r.push(InputContact {
                id,
                position: self.positions.get(id),
                just_pressed: self.inputs.just_pressed(id),
                just_released: self.inputs.just_released(id),
            });
            i += 1;
        }
        r
    }

    pub fn is_pressed(&self, id: u64) -> (r: bool)
        ensures
            r == self@.inputs.pressed.contains(id),
    {
        self.inputs.pressed(id)
    }

    pub fn position_of(&self, id: u64) -> (r: Option<Vec2i>)
        ensures
            r == (if self@.positions.contains_key(id) { Some(self@.positions[id]) } else { None::<Vec2i> }),
    {
        self.positions.get(id)
    }
}

} // verus!

verus! {

/// A touch the device reports, with its position in pixels.
#[derive(Clone, Copy, Debug, PartialEq, Eq, Structural)]
pub struct TouchPoint {
    pub id: u64,
    pub position: Vec2i,
}

pub open spec fn releases(ids: Seq<u64>) -> Seq<InputEvent> {
    ids.map_values(|id: u64| InputEvent::Release { id })
}

pub open spec fn presses(ts: Seq<TouchPoint>) -> Seq<InputEvent> {
    ts.map_values(|t: TouchPoint| InputEvent::Press { id: t.id, position: t.position })
}

pub open spec fn moves(ts: Seq<TouchPoint>) -> Seq<InputEvent> {
    ts.map_values(|t: TouchPoint| InputEvent::Move { id: t.id, position: t.position })
}

pub open spec fn is_reported(held: Seq<TouchPoint>, id: u64) -> bool {
    exists|i: int| 0 <= i < held.len() && held[i].id == id
}

/// The held touches, in order, that the device no longer reports as down
/// (the mouse is not a touch).
pub open spec fn stale_touches(pressed: Seq<u64>, held: Seq<TouchPoint>) -> Seq<u64>
    decreases pressed.len(),
{
    if pressed.len() == 0 {
        Seq::empty()
    } else {
        let rest = stale_touches(pressed.drop_last(), held);
        let id = pressed.last();
        if id != MOUSE_ID && !is_reported(held, id) {
            rest.push(id)
        } else {
            rest
        }
    }
}

/// A frame of the touch device as events: the touches that ended, those
/// that began, the release of each held touch the device no longer reports,
/// then the positions of the touches still down.
pub open spec fn touch_events_of(
    ended: Seq<u64>,
    began: Seq<TouchPoint>,
    held: Seq<TouchPoint>,
    pressed: Seq<u64>,
) -> Seq<InputEvent> {
    releases(ended) + presses(began) + releases(stale_touches(pressed, held)) + moves(held)
}

/// A frame of the mouse as events: where the cursor is (or that it left the
/// window), then the left button going up, or else going down.
pub open spec fn mouse_events_of(cursor: Option<Vec2i>, just_pressed: bool, just_released: bool) -> Seq<InputEvent> {
    let at = match cursor {
        Some(p) => seq![InputEvent::Move { id: MOUSE_ID, position: p }],
        None => seq![InputEvent::Leave { id: MOUSE_ID }],
    };
    if just_released {
        at.push(InputEvent::Release { id: MOUSE_ID })
    } else if just_pressed {
        match cursor {
            Some(p) => at.push(InputEvent::Press { id: MOUSE_ID, position: p }),
            None => at.push(InputEvent::Press { id: MOUSE_ID, position: Vec2i { x: 0, y: 0 } }).push(
                InputEvent::Leave { id: MOUSE_ID },
            ),
        }
    } else {
        at
    }
}

fn reported(held: &Vec<TouchPoint>, id: u64) -> (r: bool)
    ensures
        r == is_reported(held@, id),
{
    let mut i: usize = 0;
    while i < held.len()
        invariant
            0 <= i <= held@.len(),
            forall|k: int| 0 <= k < i ==> held@[k].id != id,
        decreases held@.len() - i,
    {
        if held[i].id == id {
            return true;
        }
        i += 1;
    }
    false
}

/// See `touch_events_of`; `agg` gives the inputs held so far.
pub fn touch_events(
    ended: &Vec<u64>,
    began: &Vec<TouchPoint>,
    held: &Vec<TouchPoint>,
    agg: &InputAggregator,
) -> (r: Vec<InputEvent>)
    ensures
        r@ == touch_events_of(ended@, began@, held@, agg.inputs.pressed_order()),
{
    let mut r: Vec<InputEvent> = Vec::new();
    let mut i: usize = 0;
    while i < ended.len()
        invariant
            0 <= i <= ended@.len(),
            r@ == releases(ended@.subrange(0, i as int)),
        decreases ended@.len() - i,
    {
        r.push(InputEvent::Release { id: ended[i] });
        i += 1;
        assert(r@ =~= releases(ended@.subrange(0, i as int)));
    }
    assert(ended@.subrange(0, ended@.len() as int) =~= ended@);
    let ghost a = r@;
    let mut i: usize = 0;
    while i < began.len()
        invariant
            0 <= i <= began@.len(),
            r@ == a + presses(began@.subrange(0, i as int)),
        decreases began@.len() - i,
    {
        r.push(InputEvent::Press { id: began[i].id, position: began[i].position });
        i += 1;
        assert(r@ =~= a + presses(began@.subrange(0, i as int)));
    }
    assert(began@.subrange(0, began@.len() as int) =~= began@);
    let ghost b = r@;
    let pressed = agg.inputs.iter_pressed();
    let mut i: usize = 0;
    while i < pressed.len()
        invariant
            0 <= i <= pressed@.len(),
            r@ == b + releases(stale_touches(pressed@.subrange(0, i as int), held@)),
        decreases pressed@.len() - i,
    {
        let id = pressed[i];
        assert(pressed@.subrange(0, i + 1).drop_last() =~= pressed@.subrange(0, i as int));
        if id != MOUSE_ID && !reported(held, id) {
            r.push(InputEvent::Release { id });
        }
        i += 1;
        assert(r@ =~= b + releases(stale_touches(pressed@.subrange(0, i as int), held@)));
    }
    assert(pressed@.subrange(0, pressed@.len() as int) =~= pressed@);
    let ghost c = r@;
    let mut i: usize = 0;
    while i < held.len()
        invariant
            0 <= i <= held@.len(),
            r@ == c + moves(held@.subrange(0, i as int)),
        decreases held@.len() - i,
    {
        r.push(InputEvent::Move { id: held[i].id, position: held[i].position });
        i += 1;
        assert(r@ =~= c + moves(held@.subrange(0, i as int)));
    }
    assert(held@.subrange(0, held@.len() as int) =~= held@);
    r
}

/// See `mouse_events_of`.
pub fn mouse_events(cursor: Option<Vec2i>, just_pressed: bool, just_released: bool) -> (r: Vec<InputEvent>)
    ensures
        r@ == mouse_events_of(cursor, just_pressed, just_released),
{
    let mut r: Vec<InputEvent> = Vec::new();
    match cursor {
        Some(p) => r.push(InputEvent::Move { id: MOUSE_ID, position: p }),
        None => r.push(InputEvent::Leave { id: MOUSE_ID }),
    }
    if just_released {
        r.push(InputEvent::Release { id: MOUSE_ID });
    } else if just_pressed {
        match cursor {
            Some(p) => r.push(InputEvent::Press { id: MOUSE_ID, position: p }),
            None => {
                r.push(InputEvent::Press { id: MOUSE_ID, position: Vec2i { x: 0, y: 0 } });
                r.push(InputEvent::Leave { id: MOUSE_ID });
            },
        }
    }
    assert(r@ =~= mouse_events_of(cursor, just_pressed, just_released));
    r
}

} // verus!
