//! The input that a window receives.

use vstd::prelude::*;

verus! {

/// The modifier keys that are held.
#[derive(Clone, Copy, Debug, PartialEq, Eq, Structural)]
pub struct Modifiers {
    pub control: bool,
    pub alt: bool,
    pub shift: bool,
    pub platform: bool,
    pub function: bool,
}

/// No modifier held.
pub open spec fn no_modifiers() -> Modifiers {
    Modifiers { control: false, alt: false, shift: false, platform: false, function: false }
}

impl Default for Modifiers {
    fn default() -> (modifiers: Self)
        ensures
            modifiers == no_modifiers(),
    {
        Modifiers { control: false, alt: false, shift: false, platform: false, function: false }
    }
}

/// Whether every modifier of `a` is one of `b`.
pub open spec fn subset_of(a: Modifiers, b: Modifiers) -> bool {
    &&& a.control ==> b.control
    &&& a.alt ==> b.alt
    &&& a.shift ==> b.shift
    &&& a.platform ==> b.platform
    &&& a.function ==> b.function
}

impl Modifiers {
    /// Shift alone.
    pub fn shift() -> (modifiers: Modifiers)
        ensures
            modifiers == (Modifiers { shift: true, ..no_modifiers() }),
    {
        Modifiers { control: false, alt: false, shift: true, platform: false, function: false }
    }

    /// Whether every modifier held in `self` is held in `other` too.
    pub fn is_subset_of(&self, other: &Modifiers) -> (subset: bool)
        ensures
            subset == subset_of(*self, *other),
    {
        (!self.control || other.control) && (!self.alt || other.alt) && (!self.shift
            || other.shift) && (!self.platform || other.platform) && (!self.function
            || other.function)
    }
}

/// The caps lock light.
#[derive(Clone, Copy, Debug, PartialEq, Eq, Structural)]
pub struct Capslock {
    pub on: bool,
}

impl Default for Capslock {
    fn default() -> (capslock: Self)
        ensures
            !capslock.on,
    {
        Capslock { on: false }
    }
}

/// A key together with the modifiers held while it was struck.
#[derive(Clone, Debug, PartialEq)]
pub struct Keystroke {
    pub modifiers: Modifiers,
    pub key: String,
    /// The text that the keystroke types.
    pub key_char: Option<String>,
}

/// What a `Keystroke` stands for.
pub struct KeystrokeView {
    pub modifiers: Modifiers,
    pub key: Seq<char>,
    pub key_char: Option<Seq<char>>,
}

impl View for Keystroke {
    type V = KeystrokeView;

    open spec fn view(&self) -> KeystrokeView {
        KeystrokeView {
            modifiers: self.modifiers,
            key: self.key@,
            key_char: match self.key_char {
                Some(text) => Some(text@),
                None => None,
            },
        }
    }
}

/// A key went down, or is held down.
#[derive(Clone, Debug, PartialEq)]
pub struct KeyDownEvent {
    pub keystroke: Keystroke,
    pub is_held: bool,
    pub prefer_character_input: bool,
}

/// A key went up.
#[derive(Clone, Debug, PartialEq)]
pub struct KeyUpEvent {
    pub keystroke: Keystroke,
}

/// A modifier key went down or up.
#[derive(Clone, Debug, PartialEq)]
pub struct ModifiersChangedEvent {
    pub modifiers: Modifiers,
    pub capslock: Capslock,
}

/// One input to the window.
#[derive(Clone, Debug, PartialEq)]
pub enum PlatformInput {
    KeyDown(KeyDownEvent),
    KeyUp(KeyUpEvent),
    ModifiersChanged(ModifiersChangedEvent),
}

/// What a `PlatformInput` stands for.
pub enum InputView {
    KeyDown { keystroke: KeystrokeView, is_held: bool, prefer_character_input: bool },
    KeyUp { keystroke: KeystrokeView },
    ModifiersChanged { modifiers: Modifiers, capslock: Capslock },
}

impl View for PlatformInput {
    type V = InputView;

    open spec fn view(&self) -> InputView {
        match *self {
            PlatformInput::KeyDown(event) => InputView::KeyDown {
                keystroke: event.keystroke@,
                is_held: event.is_held,
                prefer_character_input: event.prefer_character_input,
            },
            PlatformInput::KeyUp(event) => InputView::KeyUp { keystroke: event.keystroke@ },
            PlatformInput::ModifiersChanged(event) => InputView::ModifiersChanged {
                modifiers: event.modifiers,
                capslock: event.capslock,
            },
        }
    }
}

/// What a sequence of inputs stands for.
pub open spec fn inputs(s: Seq<PlatformInput>) -> Seq<InputView> {
    s.map_values(|input: PlatformInput| input@)
}

/// Pushing an input appends what it stands for.
pub(crate) proof fn lemma_push_input(s: Seq<PlatformInput>, input: PlatformInput)
    ensures
        inputs(s.push(input)) == inputs(s).push(input@),
{
    assert(inputs(s.push(input)) =~= inputs(s).push(input@));
}

/// Whether two sequences hold the same inputs.
pub open spec fn same_inputs(before: Seq<PlatformInput>, after: Seq<PlatformInput>) -> bool {
    &&& after.len() == before.len()
    &&& forall|i: int| 0 <= i < before.len() ==> (#[trigger] after[i])@ == before[i]@
}

/// Whether `after` holds the inputs of `before`, and one more at the end.
pub open spec fn one_more_input(before: Seq<PlatformInput>, after: Seq<PlatformInput>) -> bool {
    after.len() > 0 && same_inputs(before, after.drop_last())
}

pub(crate) proof fn lemma_same_inputs(before: Seq<PlatformInput>, after: Seq<PlatformInput>)
    requires
        inputs(after) == inputs(before),
    ensures
        same_inputs(before, after),
{
    assert(inputs(after).len() == after.len() && inputs(before).len() == before.len());
    assert forall|i: int| 0 <= i < before.len() implies (#[trigger] after[i])@ == before[i]@ by {
        assert(inputs(after)[i] == after[i]@ && inputs(before)[i] == before[i]@);
    }
}

pub(crate) proof fn lemma_one_more_input(
    before: Seq<PlatformInput>,
    after: Seq<PlatformInput>,
    input: InputView,
)
    requires
        inputs(after) == inputs(before).push(input),
    ensures
        one_more_input(before, after),
        after.last()@ == input,
{
    assert(inputs(after).len() == after.len() && inputs(before).len() == before.len());
    assert(inputs(after).last() == after.last()@);
    assert(inputs(after.drop_last()) =~= inputs(after).drop_last());
    assert(inputs(after).drop_last() =~= inputs(before));
    lemma_same_inputs(before, after.drop_last());
}

/// One set of modifiers is a subset of another exactly when each modifier that is held in the first
/// is held in the second.
pub proof fn law_subsets_hold_no_other_modifier(a: Modifiers, b: Modifiers, subset: bool)
    requires
        call_ensures(Modifiers::is_subset_of, (&a, &b), subset),
    ensures
        !subset <==> (a.control && !b.control) || (a.alt && !b.alt) || (a.shift && !b.shift) || (
        a.platform && !b.platform) || (a.function && !b.function),
{
}

pub(crate) proof fn lemma_more_inputs(
    before: Seq<PlatformInput>,
    after: Seq<PlatformInput>,
    given: Seq<InputView>,
)
    requires
        inputs(after) == inputs(before) + given,
    ensures
        after.len() == before.len() + given.len(),
        same_inputs(before, after.take(before.len() as int)),
        forall|i: int|
            0 <= i < given.len() ==> (#[trigger] after[before.len() + i])@ == given[i],
{
    assert(inputs(after).len() == after.len() && inputs(before).len() == before.len());
    assert(inputs(after.take(before.len() as int)) =~= inputs(after).take(before.len() as int));
    assert(inputs(after).take(before.len() as int) =~= inputs(before));
    lemma_same_inputs(before, after.take(before.len() as int));
    assert forall|i: int| 0 <= i < given.len() implies (#[trigger] after[before.len() + i])@
        == given[i] by {
        assert(inputs(after)[before.len() + i] == after[before.len() + i]@);
    }
}

} // verus!
