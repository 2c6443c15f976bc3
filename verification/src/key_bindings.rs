//! Configurable keyboard shortcuts: each action has an ordered list of
//! bindings, a binding names a key and its modifiers and matches the
//! character that the layout produces (logical) or the key's position
//! (physical).
//!
//! A binding holds, besides the key's name, the key value that GDK gives for
//! that name (trimmed, then lowered), or none when GDK knows no such name.
use crate::keys::{Modifiers, KEY_C, KEY_D, KEY_Z};
use crate::text::copy_str;
use vstd::prelude::*;

verus! {

broadcast use vstd::string::group_string_axioms;

/// An action that a key binding performs.
#[derive(Clone, Copy, Debug, PartialEq, Eq, Structural)]
pub enum KeyAction {
    NewTab,
    PreviousTab,
    NextTab,
    Copy,
    Paste,
    ZoomIn,
    ZoomOut,
    ZoomReset,
}

/// The number of actions.
pub const KEY_ACTION_COUNT: usize = 8;

/// The action at position `i` in the order bindings are read.
pub open spec fn action_at(i: int) -> KeyAction {
    if i == 0 {
        KeyAction::NewTab
    } else if i == 1 {
        KeyAction::PreviousTab
    } else if i == 2 {
        KeyAction::NextTab
    } else if i == 3 {
        KeyAction::Copy
    } else if i == 4 {
        KeyAction::Paste
    } else if i == 5 {
        KeyAction::ZoomIn
    } else if i == 6 {
        KeyAction::ZoomOut
    } else {
        KeyAction::ZoomReset
    }
}

/// The name of an action in settings files.
pub open spec fn action_name(a: KeyAction) -> Seq<char> {
    match a {
        KeyAction::NewTab => "new_tab"@,
        KeyAction::PreviousTab => "previous_tab"@,
        KeyAction::NextTab => "next_tab"@,
        KeyAction::Copy => "copy"@,
        KeyAction::Paste => "paste"@,
        KeyAction::ZoomIn => "zoom_in"@,
        KeyAction::ZoomOut => "zoom_out"@,
        KeyAction::ZoomReset => "zoom_reset"@,
    }
}

impl KeyAction {
    /// The action at position `i` in the order bindings are read.
    pub fn at(i: usize) -> (action: KeyAction)
        requires
            i < KEY_ACTION_COUNT,
        ensures
            action == action_at(i as int),
    {
        if i == 0 {
            KeyAction::NewTab
        } else if i == 1 {
            KeyAction::PreviousTab
        } else if i == 2 {
            KeyAction::NextTab
        } else if i == 3 {
            KeyAction::Copy
        } else if i == 4 {
            KeyAction::Paste
        } else if i == 5 {
            KeyAction::ZoomIn
        } else if i == 6 {
            KeyAction::ZoomOut
        } else {
            KeyAction::ZoomReset
        }
    }

    /// The action's name in settings files.
    pub fn name(self) -> (name: &'static str)
        ensures
            name@ == action_name(self),
    {
        match self {
            KeyAction::NewTab => "new_tab",
            KeyAction::PreviousTab => "previous_tab",
            KeyAction::NextTab => "next_tab",
            KeyAction::Copy => "copy",
            KeyAction::Paste => "paste",
            KeyAction::ZoomIn => "zoom_in",
            KeyAction::ZoomOut => "zoom_out",
            KeyAction::ZoomReset => "zoom_reset",
        }
    }
}

/// A modifier key of a binding.
#[derive(Clone, Copy, Debug, PartialEq, Eq, Structural)]
pub enum KeyModifier {
    Control,
    Shift,
    Alt,
    Super,
    Meta,
    Hyper,
}

/// How a modifier is written in a shortcut's label.
pub open spec fn modifier_label(m: KeyModifier) -> Seq<char> {
    match m {
        KeyModifier::Control => "Ctrl"@,
        KeyModifier::Shift => "Shift"@,
        KeyModifier::Alt => "Alt"@,
        KeyModifier::Super => "Super"@,
        KeyModifier::Meta => "Meta"@,
        KeyModifier::Hyper => "Hyper"@,
    }
}

impl KeyModifier {
    /// How the modifier is written in a shortcut's label.
    pub fn label(self) -> (label: &'static str)
        ensures
            label@ == modifier_label(self),
    {
        match self {
            KeyModifier::Control => "Ctrl",
            KeyModifier::Shift => "Shift",
            KeyModifier::Alt => "Alt",
            KeyModifier::Super => "Super",
            KeyModifier::Meta => "Meta",
            KeyModifier::Hyper => "Hyper",
        }
    }
}

/// The modifiers that a list of modifier keys holds down.
pub open spec fn modifiers_of(ms: Seq<KeyModifier>) -> Modifiers {
    Modifiers {
        control: ms.contains(KeyModifier::Control),
        shift: ms.contains(KeyModifier::Shift),
        alt: ms.contains(KeyModifier::Alt),
        super_key: ms.contains(KeyModifier::Super),
        hyper: ms.contains(KeyModifier::Hyper),
        meta: ms.contains(KeyModifier::Meta),
    }
}

/// Some modifier key is listed twice.
pub open spec fn has_duplicate_modifier(ms: Seq<KeyModifier>) -> bool {
    exists|i: int, j: int| 0 <= i < j < ms.len() && ms[i] == ms[j]
}

/// Whether a binding matches the produced character or the key's position.
#[derive(Clone, Copy, Debug, PartialEq, Eq, Structural)]
pub enum KeyMatchMode {
    Logical,
    Physical,
}

/// One shortcut of an action.
#[derive(Clone, Debug, PartialEq, Eq)]
pub struct KeyBinding {
    /// The key's name, as GDK names keys.
    pub key: String,
    /// The key value that GDK gives for the trimmed name, lowered; none when
    /// GDK knows no key of that name.
    pub key_value: Option<u32>,
    pub modifiers: Vec<KeyModifier>,
    pub match_mode: KeyMatchMode,
}

/// `KeyBinding` in specifications.
pub struct KeyBindingView {
    pub key: Seq<char>,
    pub key_value: Option<u32>,
    pub modifiers: Seq<KeyModifier>,
    pub match_mode: KeyMatchMode,
}

impl View for KeyBinding {
    type V = KeyBindingView;

    open spec fn view(&self) -> KeyBindingView {
        KeyBindingView {
            key: self.key@,
            key_value: self.key_value,
            modifiers: self.modifiers@,
            match_mode: self.match_mode,
        }
    }
}

/// A binding whose key is known, with the modifiers it holds down.
#[derive(Clone, Copy, Debug, PartialEq, Eq, Structural)]
pub struct ResolvedBinding {
    pub action: KeyAction,
    pub key: u32,
    pub modifiers: Modifiers,
    pub match_mode: KeyMatchMode,
}

/// A terminal shortcut that no binding may take.
#[derive(Clone, Copy, Debug, PartialEq, Eq, Structural)]
pub enum ReservedShortcut {
    /// Control+D, the end of input.
    EndOfInput,
    /// Control+Z and Control+Shift+Z, suspending the foreground program.
    Suspend,
    /// Control+C, which only Copy may take beside the interrupt.
    Interrupt,
}

/// Control held alone.
pub open spec fn control_alone() -> Modifiers {
    Modifiers { control: true, shift: false, alt: false, super_key: false, hyper: false, meta: false }
}

/// Control held with Shift alone.
pub open spec fn control_shift() -> Modifiers {
    Modifiers { control: true, shift: true, alt: false, super_key: false, hyper: false, meta: false }
}

/// The terminal shortcut that a binding of `action` to `key` with
/// `modifiers` would take, if any.
pub open spec fn reserved_for(action: KeyAction, key: u32, modifiers: Modifiers) -> Option<
    ReservedShortcut,
> {
    if modifiers == control_alone() && key == KEY_D {
        Some(ReservedShortcut::EndOfInput)
    } else if (modifiers == control_alone() || modifiers == control_shift()) && key == KEY_Z {
        Some(ReservedShortcut::Suspend)
    } else if modifiers == control_alone() && key == KEY_C && action != KeyAction::Copy {
        Some(ReservedShortcut::Interrupt)
    } else {
        None
    }
}

/// The terminal shortcut that a binding would take, if any.
pub fn reserved_shortcut(action: KeyAction, key: u32, modifiers: Modifiers) -> (reserved: Option<
    ReservedShortcut,
>)
    ensures
        reserved == reserved_for(action, key, modifiers),
{
    let alone = Modifiers {
        control: true,
        shift: false,
        alt: false,
        super_key: false,
        hyper: false,
        meta: false,
    };
    let with_shift = Modifiers { shift: true, ..alone };
    if modifiers == alone && key == KEY_D {
        Some(ReservedShortcut::EndOfInput)
    } else if (modifiers == alone || modifiers == with_shift) && key == KEY_Z {
        Some(ReservedShortcut::Suspend)
    } else if modifiers == alone && key == KEY_C && action != KeyAction::Copy {
        Some(ReservedShortcut::Interrupt)
    } else {
        None
    }
}

/// The modifiers that `ms` holds down, or none when a modifier key is
/// listed twice.
pub fn modifiers_held(ms: &Vec<KeyModifier>) -> (held: Option<Modifiers>)
    ensures
        match held {
            Some(m) => !has_duplicate_modifier(ms@) && m == modifiers_of(ms@),
            None => has_duplicate_modifier(ms@),
        },
{
    let mut m = Modifiers {
        control: false,
        shift: false,
        alt: false,
        super_key: false,
        hyper: false,
        meta: false,
    };
    let mut k: usize = 0;
    while k < ms.len()
        invariant
            k <= ms@.len(),
            m == modifiers_of(ms@.take(k as int)),
            !has_duplicate_modifier(ms@.take(k as int)),
        decreases ms.len() - k,
    {
        let x = ms[k];
        let ghost before = ms@.take(k as int);
        let ghost after = ms@.take(k + 1);
        assert(after == before.push(x));
        let already = match x {
            KeyModifier::Control => m.control,
            KeyModifier::Shift => m.shift,
            KeyModifier::Alt => m.alt,
            KeyModifier::Super => m.super_key,
            KeyModifier::Meta => m.meta,
            KeyModifier::Hyper => m.hyper,
        };
        if already {
            proof {
                assert(before.contains(x));
                let i = choose|i: int| 0 <= i < before.len() && before[i] == x;
                assert(ms@[i] == ms@[k as int]);
            }
            return None;
        }
        match x {
            KeyModifier::Control => m.control = true,
            KeyModifier::Shift => m.shift = true,
            KeyModifier::Alt => m.alt = true,
            KeyModifier::Super => m.super_key = true,
            KeyModifier::Meta => m.meta = true,
            KeyModifier::Hyper => m.hyper = true,
        }
        proof {
            assert forall|y: KeyModifier| after.contains(y) == (before.contains(y) || y == x) by {
                if after.contains(y) {
                    let i = choose|i: int| 0 <= i < after.len() && after[i] == y;
                    if i < before.len() {
                        assert(before[i] == y);
                    }
                }
                if before.contains(y) {
                    let i = choose|i: int| 0 <= i < before.len() && before[i] == y;
                    assert(after[i] == y);
                }
                if y == x {
                    assert(after[k as int] == y);
                }
            }
            assert(m == modifiers_of(after));
            assert(!has_duplicate_modifier(after)) by {
                if has_duplicate_modifier(after) {
                    let (i, j) = choose|i: int, j: int|
                        0 <= i < j < after.len() && after[i] == after[j];
                    if j < k {
                        assert(before[i] == before[j]);
                    } else {
                        assert(before[i] == x);
                        assert(before.contains(x));
                    }
                }
            }
        }
        k = k + 1;
    }
    proof {
        assert(ms@.take(ms@.len() as int) == ms@);
    }
    Some(m)
}

/// Why a set of key bindings cannot be used.
#[derive(Clone, Debug, PartialEq, Eq)]
pub enum KeyBindingError {
    /// GDK knows no key of this name.
    UnknownKey(String),
    /// The binding of this key lists a modifier twice.
    DuplicateModifier(String),
    /// The binding takes a terminal shortcut.
    Reserved(ReservedShortcut),
    /// A binding of `action` has the key and modifiers of an earlier binding
    /// of `previous`.
    Conflict { action: KeyAction, previous: KeyAction },
}

/// `KeyBindingError` in specifications.
pub enum KeyBindingFault {
    UnknownKey(Seq<char>),
    DuplicateModifier(Seq<char>),
    Reserved(ReservedShortcut),
    Conflict(KeyAction, KeyAction),
}

impl View for KeyBindingError {
    type V = KeyBindingFault;

    open spec fn view(&self) -> KeyBindingFault {
        match self {
            KeyBindingError::UnknownKey(k) => KeyBindingFault::UnknownKey(k@),
            KeyBindingError::DuplicateModifier(k) => KeyBindingFault::DuplicateModifier(k@),
            KeyBindingError::Reserved(r) => KeyBindingFault::Reserved(*r),
            KeyBindingError::Conflict { action, previous } => KeyBindingFault::Conflict(
                *action,
                *previous,
            ),
        }
    }
}

/// The bindings of every action, each list in order.
#[derive(Clone, Debug, PartialEq, Eq)]
pub struct KeyBindings {
    pub new_tab: Vec<KeyBinding>,
    pub previous_tab: Vec<KeyBinding>,
    pub next_tab: Vec<KeyBinding>,
    pub copy: Vec<KeyBinding>,
    pub paste: Vec<KeyBinding>,
    pub zoom_in: Vec<KeyBinding>,
    pub zoom_out: Vec<KeyBinding>,
    pub zoom_reset: Vec<KeyBinding>,
}

/// A binding with the action it belongs to.
pub type TaggedBinding = (KeyAction, KeyBindingView);

/// What a binding does once its key is known.
pub open spec fn resolved_of(entry: TaggedBinding) -> ResolvedBinding {
    ResolvedBinding {
        action: entry.0,
        key: entry.1.key_value.unwrap(),
        modifiers: modifiers_of(entry.1.modifiers),
        match_mode: entry.1.match_mode,
    }
}

/// What is wrong with a binding by itself: an unknown key, a modifier
/// listed twice, or a terminal shortcut.
pub open spec fn own_fault(entry: TaggedBinding) -> Option<KeyBindingFault> {
    let b = entry.1;
    match b.key_value {
        None => Some(KeyBindingFault::UnknownKey(b.key)),
        Some(key) => if has_duplicate_modifier(b.modifiers) {
            Some(KeyBindingFault::DuplicateModifier(b.key))
        } else {
            match reserved_for(entry.0, key, modifiers_of(b.modifiers)) {
                Some(r) => Some(KeyBindingFault::Reserved(r)),
                None => None,
            }
        },
    }
}

/// Two bindings with the same key and modifiers.
pub open spec fn same_shortcut(x: TaggedBinding, y: TaggedBinding) -> bool {
    x.1.key_value == y.1.key_value && modifiers_of(x.1.modifiers) == modifiers_of(y.1.modifiers)
}

/// The first binding from position `j` on, before `i`, with the shortcut of
/// binding `i`.
pub open spec fn earliest_conflict(entries: Seq<TaggedBinding>, i: int, j: int) -> Option<int>
    decreases i - j,
{
    if j >= i || j < 0 {
        None
    } else if same_shortcut(entries[j], entries[i]) {
        Some(j)
    } else {
        earliest_conflict(entries, i, j + 1)
    }
}

/// What is wrong with binding `i`, given that the bindings before it are
/// fine.
pub open spec fn fault_at(entries: Seq<TaggedBinding>, i: int) -> Option<KeyBindingFault> {
    match own_fault(entries[i]) {
        Some(f) => Some(f),
        None => match earliest_conflict(entries, i, 0) {
            Some(j) => Some(KeyBindingFault::Conflict(entries[i].0, entries[j].0)),
            None => None,
        },
    }
}

/// The first fault among the first `n` bindings.
pub open spec fn first_fault(entries: Seq<TaggedBinding>, n: int) -> Option<KeyBindingFault>
    decreases n,
{
    if n <= 0 {
        None
    } else {
        match first_fault(entries, n - 1) {
            Some(f) => Some(f),
            None => fault_at(entries, n - 1),
        }
    }
}

/// A fault among the first `k` bindings is the first fault among more.
proof fn lemma_first_fault_stays(entries: Seq<TaggedBinding>, k: int, later: int)
    requires
        k <= later,
        first_fault(entries, k) is Some,
    ensures
        first_fault(entries, later) == first_fault(entries, k),
    decreases later - k,
{
    if later > k {
        lemma_first_fault_stays(entries, k, later - 1);
    }
}

/// Where the first `k` bindings have no fault, none of them has a fault by
/// itself.
proof fn lemma_no_fault_before(entries: Seq<TaggedBinding>, k: int)
    requires
        first_fault(entries, k) is None,
    ensures
        forall|i: int| 0 <= i < k ==> own_fault(#[trigger] entries[i]) is None,
    decreases k,
{
    if k > 0 {
        lemma_no_fault_before(entries, k - 1);
        assert forall|i: int| 0 <= i < k implies own_fault(#[trigger] entries[i]) is None by {
            if i == k - 1 {
                assert(fault_at(entries, k - 1) is None);
            }
        }
    }
}

proof fn lemma_no_conflict_from(entries: Seq<TaggedBinding>, i: int, j: int)
    requires
        0 <= j,
        earliest_conflict(entries, i, j) is None,
    ensures
        forall|k: int| j <= k < i ==> !same_shortcut(#[trigger] entries[k], entries[i]),
    decreases i - j,
{
    if j < i {
        lemma_no_conflict_from(entries, i, j + 1);
    }
}

proof fn lemma_no_conflict_before(entries: Seq<TaggedBinding>, n: int)
    requires
        first_fault(entries, n) is None,
    ensures
        forall|i: int, j: int|
            0 <= i < j < n ==> !same_shortcut(#[trigger] entries[i], #[trigger] entries[j]),
    decreases n,
{
    if n > 0 {
        lemma_no_conflict_before(entries, n - 1);
        assert(fault_at(entries, n - 1) is None);
        lemma_no_conflict_from(entries, n - 1, 0);
    }
}

/// The terminal keeps Control+D (end of input), Control+Z and
/// Control+Shift+Z (suspend), and Control+C (interrupt) for every action but
/// Copy: a binding of any of them, with a known key and each modifier once,
/// is refused as that reserved shortcut. A binding without Control is never
/// refused as one.
pub proof fn law_terminal_shortcuts_are_reserved(action: KeyAction, b: KeyBindingView)
    requires
        !has_duplicate_modifier(b.modifiers),
    ensures
        b.key_value == Some(0x64u32) && modifiers_of(b.modifiers) == (Modifiers {
            control: true,
            shift: false,
            alt: false,
            super_key: false,
            hyper: false,
            meta: false,
        }) ==> own_fault((action, b)) == Some(KeyBindingFault::Reserved(ReservedShortcut::EndOfInput)),
        b.key_value == Some(0x7au32) && modifiers_of(b.modifiers) == (Modifiers {
            control: true,
            shift: false,
            alt: false,
            super_key: false,
            hyper: false,
            meta: false,
        }) ==> own_fault((action, b)) == Some(KeyBindingFault::Reserved(ReservedShortcut::Suspend)),
        b.key_value == Some(0x7au32) && modifiers_of(b.modifiers) == (Modifiers {
            control: true,
            shift: true,
            alt: false,
            super_key: false,
            hyper: false,
            meta: false,
        }) ==> own_fault((action, b)) == Some(KeyBindingFault::Reserved(ReservedShortcut::Suspend)),
        b.key_value == Some(0x63u32) && action != KeyAction::Copy && modifiers_of(b.modifiers) == (
        Modifiers { control: true, shift: false, alt: false, super_key: false, hyper: false, meta: false })
            ==> own_fault((action, b)) == Some(
            KeyBindingFault::Reserved(ReservedShortcut::Interrupt),
        ),
        b.key_value is Some && !b.modifiers.contains(KeyModifier::Control) ==> own_fault((action, b))
            is None,
        b.key_value == Some(0x7au32) && b.modifiers == seq![KeyModifier::Control] ==> own_fault(
            (action, b),
        ) == Some(KeyBindingFault::Reserved(ReservedShortcut::Suspend)),
{
    if b.modifiers == seq![KeyModifier::Control] {
        assert(b.modifiers[0] == KeyModifier::Control);
    }
}

/// Bindings that pass `validate` each name a known key with each modifier
/// once, take no terminal shortcut, and no two of them share a key and
/// modifiers.
pub proof fn law_valid_bindings_are_unambiguous(bindings: KeyBindings)
    requires
        bindings.spec_fault() is None,
    ensures
        forall|i: int|
            0 <= i < bindings.all_bindings().len() ==> own_fault(
                #[trigger] bindings.all_bindings()[i],
            ) is None,
        forall|i: int, j: int|
            0 <= i < j < bindings.all_bindings().len() ==> !same_shortcut(
                #[trigger] bindings.all_bindings()[i],
                #[trigger] bindings.all_bindings()[j],
            ),
{
    let es = bindings.all_bindings();
    lemma_no_fault_before(es, es.len() as int);
    lemma_no_conflict_before(es, es.len() as int);
}

impl KeyBindings {
    /// The bindings of `a`.
    pub open spec fn spec_bindings(&self, a: KeyAction) -> Seq<KeyBinding> {
        match a {
            KeyAction::NewTab => self.new_tab@,
            KeyAction::PreviousTab => self.previous_tab@,
            KeyAction::NextTab => self.next_tab@,
            KeyAction::Copy => self.copy@,
            KeyAction::Paste => self.paste@,
            KeyAction::ZoomIn => self.zoom_in@,
            KeyAction::ZoomOut => self.zoom_out@,
            KeyAction::ZoomReset => self.zoom_reset@,
        }
    }

    /// The bindings of `a`, each with `a`.
    pub open spec fn tagged(&self, a: KeyAction) -> Seq<TaggedBinding> {
        self.spec_bindings(a).map_values(|b: KeyBinding| (a, b@))
    }

    /// The bindings of the first `i` actions, action by action.
    pub open spec fn bindings_before(&self, i: int) -> Seq<TaggedBinding>
        decreases i,
    {
        if i <= 0 {
            Seq::empty()
        } else {
            self.bindings_before(i - 1) + self.tagged(action_at(i - 1))
        }
    }

    /// Every binding, action by action in the order of `action_at`.
    pub open spec fn all_bindings(&self) -> Seq<TaggedBinding> {
        self.bindings_before(8)
    }

    /// The first fault of the bindings, in the order they are read.
    pub open spec fn spec_fault(&self) -> Option<KeyBindingFault> {
        first_fault(self.all_bindings(), self.all_bindings().len() as int)
    }

    /// The bindings of `action`.
    pub fn bindings(&self, action: KeyAction) -> (list: &Vec<KeyBinding>)
        ensures
            list@ == self.spec_bindings(action),
    {
        match action {
            KeyAction::NewTab => &self.new_tab,
            KeyAction::PreviousTab => &self.previous_tab,
            KeyAction::NextTab => &self.next_tab,
            KeyAction::Copy => &self.copy,
            KeyAction::Paste => &self.paste,
            KeyAction::ZoomIn => &self.zoom_in,
            KeyAction::ZoomOut => &self.zoom_out,
            KeyAction::ZoomReset => &self.zoom_reset,
        }
    }

    /// Checks the bindings in the order they are read: each must name a
    /// known key, list each modifier once, leave the terminal shortcuts
    /// alone, and differ in key or modifiers from every earlier binding.
    pub fn validate(&self) -> (result: Result<(), KeyBindingError>)
        ensures
            match result {
                Ok(()) => self.spec_fault() is None,
                Err(e) => self.spec_fault() == Some(e@),
            },
    {
        let entries = self.tagged_bindings();
        let ghost es = self.all_bindings();
        let mut seen: Vec<ResolvedBinding> = Vec::new();
        let mut n: usize = 0;
        while n < entries.len()
            invariant
                es == self.all_bindings(),
                entries@.len() == es.len(),
                forall|k: int|
                    0 <= k < entries@.len() ==> (#[trigger] entries@[k]).0 == es[k].0
                        && entries@[k].1@ == es[k].1,
                n <= es.len(),
                first_fault(es, n as int) is None,
                seen@.len() == n,
                forall|m: int|
                    0 <= m < n ==> es[m].1.key_value is Some && #[trigger] seen@[m] == resolved_of(
                        es[m],
                    ),
            decreases entries.len() - n,
        {
            let (a, b) = entries[n];
            assert(entries@[n as int].0 == es[n as int].0);
            assert(entries@[n as int].1@ == es[n as int].1);
            assert(first_fault(es, n + 1) == fault_at(es, n as int));
            proof {
                if fault_at(es, n as int) is Some {
                    lemma_first_fault_stays(es, n + 1, es.len() as int);
                }
            }
            let key = match b.key_value {
                None => {
                    return Err(KeyBindingError::UnknownKey(copy_str(b.key.as_str())));
                },
                Some(k) => k,
            };
            let modifiers = match modifiers_held(&b.modifiers) {
                None => {
                    return Err(KeyBindingError::DuplicateModifier(copy_str(b.key.as_str())));
                },
                Some(m) => m,
            };
            match reserved_shortcut(a, key, modifiers) {
                Some(r) => {
                    return Err(KeyBindingError::Reserved(r));
                },
                None => {},
            }
            let mut m: usize = 0;
            while m < seen.len()
                invariant
                    es == self.all_bindings(),
                    n < es.len(),
                    seen@.len() == n,
                    m <= n,
                    es[n as int].0 == a,
                    es[n as int].1.key_value == Some(key),
                    modifiers == modifiers_of(es[n as int].1.modifiers),
                    !has_duplicate_modifier(es[n as int].1.modifiers),
                    reserved_for(a, key, modifiers) is None,
                    first_fault(es, n as int) is None,
                    forall|k: int|
                        0 <= k < n ==> es[k].1.key_value is Some && #[trigger] seen@[k]
                            == resolved_of(es[k]),
                    earliest_conflict(es, n as int, 0) == earliest_conflict(es, n as int, m as int),
                decreases seen.len() - m,
            {
                let earlier = seen[m];
                assert(seen@[m as int] == resolved_of(es[m as int]));
                if earlier.key == key && earlier.modifiers == modifiers {
                    assert(same_shortcut(es[m as int], es[n as int]));
                    assert(earliest_conflict(es, n as int, m as int) == Some(m as int));
                    assert(own_fault(es[n as int]) is None);
                    assert(fault_at(es, n as int) == Some(
                        KeyBindingFault::Conflict(a, es[m as int].0),
                    ));
                    proof {
                        lemma_first_fault_stays(es, n + 1, es.len() as int);
                    }
                    assert(earlier.action == es[m as int].0);
                    return Err(KeyBindingError::Conflict { action: a, previous: earlier.action });
                }
                assert(!same_shortcut(es[m as int], es[n as int]));
                m = m + 1;
            }
            assert(earliest_conflict(es, n as int, n as int) is None);
            seen.push(ResolvedBinding { action: a, key, modifiers, match_mode: b.match_mode });
            proof {
                assert forall|k: int| 0 <= k < n + 1 implies es[k].1.key_value is Some
                    && #[trigger] seen@[k] == resolved_of(es[k]) by {
                    if k == n {
                        assert(entries@[n as int].1@ == es[n as int].1);
                    }
                }
            }
            n = n + 1;
        }
        Ok(())
    }

    /// What every binding does, in the order they are read; the bindings
    /// have passed `validate`.
    pub fn resolved_bindings(&self) -> (resolved: Vec<ResolvedBinding>)
        requires
            self.spec_fault() is None,
        ensures
            resolved@ == self.all_bindings().map_values(|e: TaggedBinding| resolved_of(e)),
    {
        let entries = self.tagged_bindings();
        let ghost es = self.all_bindings();
        proof {
            lemma_no_fault_before(es, es.len() as int);
        }
        let mut resolved: Vec<ResolvedBinding> = Vec::new();
        let mut n: usize = 0;
        while n < entries.len()
            invariant
                es == self.all_bindings(),
                entries@.len() == es.len(),
                forall|k: int|
                    0 <= k < entries@.len() ==> (#[trigger] entries@[k]).0 == es[k].0
                        && entries@[k].1@ == es[k].1,
                forall|i: int| 0 <= i < es.len() ==> own_fault(#[trigger] es[i]) is None,
                n <= es.len(),
                resolved@ == es.take(n as int).map_values(|e: TaggedBinding| resolved_of(e)),
            decreases entries.len() - n,
        {
            let (a, b) = entries[n];
            assert(entries@[n as int].1@ == es[n as int].1);
            assert(own_fault(es[n as int]) is None);
            let key = match b.key_value {
                Some(k) => k,
                None => {
                    return resolved;
                },
            };
            let modifiers = match modifiers_held(&b.modifiers) {
                Some(m) => m,
                None => {
                    return resolved;
                },
            };
            resolved.push(ResolvedBinding { action: a, key, modifiers, match_mode: b.match_mode });
            proof {
                assert(es.take(n + 1) == es.take(n as int).push(es[n as int]));
                assert(resolved@ =~= es.take(n + 1).map_values(|e: TaggedBinding| resolved_of(e)));
            }
            n = n + 1;
        }
        proof {
            assert(es.take(es.len() as int) == es);
        }
        resolved
    }

    /// The label of the first binding of `action`, if it has one.
    pub fn primary_label(&self, action: KeyAction) -> (label: Option<String>)
        ensures
            match label {
                Some(l) => self.spec_bindings(action).len() > 0 && l@ == binding_label(
                    self.spec_bindings(action)[0]@,
                ),
                None => self.spec_bindings(action).len() == 0,
            },
    {
        let list = self.bindings(action);
        if list.len() == 0 {
            None
        } else {
            Some(list[0].label())
        }
    }

    /// Every binding with its action, in the order they are read.
    fn tagged_bindings(&self) -> (entries: Vec<(KeyAction, &KeyBinding)>)
        ensures
            entries@.len() == self.all_bindings().len(),
            forall|n: int|
                0 <= n < entries@.len() ==> (#[trigger] entries@[n]).0 == self.all_bindings()[n].0
                    && entries@[n].1@ == self.all_bindings()[n].1,
    {
        let mut entries: Vec<(KeyAction, &KeyBinding)> = Vec::new();
        let mut i: usize = 0;
        while i < KEY_ACTION_COUNT
            invariant
                i <= 8,
                entries@.len() == self.bindings_before(i as int).len(),
                forall|n: int|
                    0 <= n < entries@.len() ==> (#[trigger] entries@[n]).0 == self.bindings_before(
                        i as int,
                    )[n].0 && entries@[n].1@ == self.bindings_before(i as int)[n].1,
            decreases 8 - i,
        {
            let a = KeyAction::at(i);
            let list = self.bindings(a);
            let ghost start = entries@.len();
            let mut j: usize = 0;
            while j < list.len()
                invariant
                    i < 8,
                    a == action_at(i as int),
                    list@ == self.spec_bindings(a),
                    j <= list@.len(),
                    start == self.bindings_before(i as int).len(),
                    entries@.len() == start + j,
                    forall|n: int|
                        0 <= n < start ==> (#[trigger] entries@[n]).0 == self.bindings_before(
                            i as int,
                        )[n].0 && entries@[n].1@ == self.bindings_before(i as int)[n].1,
                    forall|n: int|
                        start <= n < entries@.len() ==> (#[trigger] entries@[n]).0 == a
                            && entries@[n].1@ == list@[n - start]@,
                decreases list.len() - j,
            {
                entries.push((a, &list[j]));
                j = j + 1;
            }
            proof {
                let next = self.bindings_before(i + 1);
                assert(next == self.bindings_before(i as int) + self.tagged(a));
                assert forall|n: int| 0 <= n < entries@.len() implies (#[trigger] entries@[n]).0
                    == next[n].0 && entries@[n].1@ == next[n].1 by {
                    if n >= start {
                        assert(next[n] == self.tagged(a)[n - start]);
                    } else {
                        assert(next[n] == self.bindings_before(i as int)[n]);
                    }
                }
            }
            i = i + 1;
        }
        entries
    }
}

/// A binding as it is matched at run time: a physical binding with the key
/// codes of its key on the keyboard.
#[derive(Clone, Debug, PartialEq, Eq)]
pub struct RuntimeBinding {
    pub resolved: ResolvedBinding,
    pub keycodes: Vec<u32>,
}

/// A runtime binding of `resolved`: a physical binding keeps `keycodes`, the
/// key codes of its key; a logical one needs none.
pub fn runtime_binding(resolved: ResolvedBinding, keycodes: Vec<u32>) -> (binding: RuntimeBinding)
    ensures
        binding.resolved == resolved,
        binding.keycodes@ == if resolved.match_mode == KeyMatchMode::Physical {
            keycodes@
        } else {
            Seq::<u32>::empty()
        },
{
    match resolved.match_mode {
        KeyMatchMode::Physical => RuntimeBinding { resolved, keycodes },
        KeyMatchMode::Logical => RuntimeBinding { resolved, keycodes: Vec::new() },
    }
}

/// Whether an event with the lowered key value `key`, the key code
/// `keycode` and `modifiers` matches `binding`.
pub open spec fn event_matches(binding: RuntimeBinding, key: u32, keycode: u32, modifiers: Modifiers) -> bool {
    &&& match binding.resolved.match_mode {
        KeyMatchMode::Logical => binding.resolved.key == key,
        KeyMatchMode::Physical => binding.keycodes@.contains(keycode),
    }
    &&& binding.resolved.modifiers == modifiers
}

/// The action of the first binding from position `i` on that an event
/// matches.
pub open spec fn action_from(
    bindings: Seq<RuntimeBinding>,
    key: u32,
    keycode: u32,
    modifiers: Modifiers,
    i: int,
) -> Option<KeyAction>
    decreases bindings.len() - i,
{
    if i < 0 || i >= bindings.len() {
        None
    } else if event_matches(bindings[i], key, keycode, modifiers) {
        Some(bindings[i].resolved.action)
    } else {
        action_from(bindings, key, keycode, modifiers, i + 1)
    }
}

/// The bindings that key events are matched against, in order.
#[derive(Clone, Debug, PartialEq, Eq)]
pub struct RuntimeKeyBindings {
    pub bindings: Vec<RuntimeBinding>,
}

impl RuntimeKeyBindings {
    /// The action of the first binding that an event matches: one with the
    /// lowered key value `key` (logical) or the key code `keycode`
    /// (physical), and exactly `modifiers`.
    pub fn action_for_event(&self, key: u32, keycode: u32, modifiers: Modifiers) -> (action: Option<
        KeyAction,
    >)
        ensures
            action == action_from(self.bindings@, key, keycode, modifiers, 0),
    {
        let mut i: usize = 0;
        while i < self.bindings.len()
            invariant
                i <= self.bindings@.len(),
                action_from(self.bindings@, key, keycode, modifiers, 0) == action_from(
                    self.bindings@,
                    key,
                    keycode,
                    modifiers,
                    i as int,
                ),
            decreases self.bindings.len() - i,
        {
            let binding = &self.bindings[i];
            let same_key = match binding.resolved.match_mode {
                KeyMatchMode::Logical => binding.resolved.key == key,
                KeyMatchMode::Physical => contains_code(&binding.keycodes, keycode),
            };
            if same_key && binding.resolved.modifiers == modifiers {
                return Some(binding.resolved.action);
            }
            i = i + 1;
        }
        None
    }
}

fn contains_code(codes: &Vec<u32>, code: u32) -> (found: bool)
    ensures
        found == codes@.contains(code),
{
    let mut i: usize = 0;
    while i < codes.len()
        invariant
            i <= codes@.len(),
            forall|j: int| 0 <= j < i ==> codes@[j] != code,
        decreases codes.len() - i,
    {
        if codes[i] == code {
            return true;
        }
        i = i + 1;
    }
    false
}

/// What `str::to_uppercase` gives for `text`.
pub uninterp spec fn uppercase(text: Seq<char>) -> Seq<char>;

/// Calls `str::to_uppercase`, which maps each character to its Unicode
/// upper case; the contract names the result and claims nothing more.
#[verifier::external_body]
fn uppercase_text(text: &str) -> (upper: String)
    ensures
        upper@ == uppercase(text@),
{
    text.to_uppercase()
}

/// How a key is written in a shortcut's label: symbols for `equal` and
/// `minus`, `PageUp` and `PageDown`, a single character in upper case, and
/// any other name as it is.
pub open spec fn key_label(key: Seq<char>) -> Seq<char> {
    if key == "equal"@ {
        "="@
    } else if key == "minus"@ {
        "-"@
    } else if key == "Page_Up"@ {
        "PageUp"@
    } else if key == "Page_Down"@ {
        "PageDown"@
    } else if key.len() == 1 {
        uppercase(key)
    } else {
        key
    }
}

/// How a key is written in a shortcut's label.
pub fn display_key_name(key: &str) -> (label: String)
    ensures
        label@ == key_label(key@),
{
    if crate::text::str_eq(key, "equal") {
        copy_str("=")
    } else if crate::text::str_eq(key, "minus") {
        copy_str("-")
    } else if crate::text::str_eq(key, "Page_Up") {
        copy_str("PageUp")
    } else if crate::text::str_eq(key, "Page_Down") {
        copy_str("PageDown")
    } else if crate::text::chars_of(key).len() == 1 {
        uppercase_text(key)
    } else {
        copy_str(key)
    }
}

/// The modifiers' labels, each followed by `+`.
pub open spec fn modifier_prefix(ms: Seq<KeyModifier>) -> Seq<char>
    decreases ms.len(),
{
    if ms.len() == 0 {
        Seq::empty()
    } else {
        modifier_prefix(ms.drop_last()) + modifier_label(ms.last()) + "+"@
    }
}

/// A shortcut's label: its modifiers and its key, joined by `+`.
pub open spec fn binding_label(b: KeyBindingView) -> Seq<char> {
    modifier_prefix(b.modifiers) + key_label(b.key)
}

impl KeyBinding {
    /// The shortcut's label, such as `Ctrl+Shift+PageUp`.
    pub fn label(&self) -> (label: String)
        ensures
            label@ == binding_label(self@),
    {
        let mut text = String::new();
        let mut i: usize = 0;
        while i < self.modifiers.len()
            invariant
                i <= self.modifiers@.len(),
                text@ == modifier_prefix(self.modifiers@.take(i as int)),
            decreases self.modifiers.len() - i,
        {
            proof {
                assert(self.modifiers@.take(i + 1).drop_last() == self.modifiers@.take(i as int));
            }
            text.append(self.modifiers[i].label());
            text.append("+");
            i = i + 1;
        }
        proof {
            assert(self.modifiers@.take(self.modifiers@.len() as int) == self.modifiers@);
        }
        text.append(display_key_name(self.key.as_str()).as_str());
        text
    }
}

} // verus!
