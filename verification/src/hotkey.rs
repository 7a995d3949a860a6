use vstd::prelude::*;

use crate::config::HotkeyBinding;
use crate::message::WM_HOTKEY_CAPTURE;

verus! {

/// Win32 hot-key modifier bits.
pub const MOD_ALT: u32 = 0x0001;
pub const MOD_CONTROL: u32 = 0x0002;
pub const MOD_SHIFT: u32 = 0x0004;
pub const MOD_NOREPEAT: u32 = 0x4000;

/// The modifier bits a binding registers: no auto-repeat, and the modifiers
/// the binding asks for.
pub open spec fn modifiers_spec(ctrl: bool, shift: bool, alt: bool) -> u32 {
    (MOD_NOREPEAT + (if ctrl { MOD_CONTROL } else { 0 }) + (if shift { MOD_SHIFT } else { 0 }) + (if alt {
        MOD_ALT
    } else {
        0
    })) as u32
}

/// Each modifier a binding asks for maps to its own Win32 bit: Ctrl to
/// `0x0002`, Shift to `0x0004`, Alt to `0x0001`; the no-repeat bit `0x4000`
/// is always set, and no other bit is.
pub proof fn lemma_modifier_bits(ctrl: bool, shift: bool, alt: bool)
    ensures
        ({
            let m = modifiers_spec(ctrl, shift, alt);
            &&& (m & 0x0002 != 0) == ctrl
            &&& (m & 0x0004 != 0) == shift
            &&& (m & 0x0001 != 0) == alt
            &&& m & 0x4000 != 0
            &&& m & !0x4007u32 == 0
        }),
{
    let m = modifiers_spec(ctrl, shift, alt);
    let c: u32 = if ctrl { 2 } else { 0 };
    let s: u32 = if shift { 4 } else { 0 };
    let a: u32 = if alt { 1 } else { 0 };
    assert(m == 0x4000 + c + s + a);
    assert({
        &&& (m & 0x0002 != 0) == (c == 2)
        &&& (m & 0x0004 != 0) == (s == 4)
        &&& (m & 0x0001 != 0) == (a == 1)
        &&& m & 0x4000 != 0
        &&& m & !0x4007u32 == 0
    }) by (bit_vector)
        requires
            m == 0x4000 + c + s + a,
            c == 0 || c == 2,
            s == 0 || s == 4,
            a == 0 || a == 1,
    ;
}

/// `parts` joined with `sep` between each two.
pub open spec fn join_with(parts: Seq<Seq<char>>, sep: Seq<char>) -> Seq<char>
    decreases parts.len(),
{
    if parts.len() == 0 {
        Seq::empty()
    } else if parts.len() == 1 {
        parts[0]
    } else {
        join_with(parts.drop_last(), sep) + sep + parts.last()
    }
}

/// The names of the modifiers set in `m`, in the order Ctrl, Shift, Alt.
pub open spec fn modifier_names(m: u32) -> Seq<Seq<char>> {
    (if m & MOD_CONTROL == MOD_CONTROL { seq!["Ctrl"@] } else { Seq::empty() }) + (if m & MOD_SHIFT
        == MOD_SHIFT {
        seq!["Shift"@]
    } else {
        Seq::empty()
    }) + (if m & MOD_ALT == MOD_ALT { seq!["Alt"@] } else { Seq::empty() })
}

/// Manages the registration of the global capture hot key of a window.
pub struct HotkeyManager {
    window: usize,
    id: u32,
}

impl HotkeyManager {
    /// The window the hot key is registered for.
    pub closed spec fn spec_window(&self) -> usize {
        self.window
    }

    /// The hot key's identifier.
    pub closed spec fn spec_id(&self) -> u32 {
        self.id
    }

    /// The capture hot key of the window with handle value `window`.
    pub fn new(window: usize) -> (m: Self)
        ensures
            m.spec_window() == window,
            m.spec_id() == WM_HOTKEY_CAPTURE,
    {
        HotkeyManager { window, id: WM_HOTKEY_CAPTURE }
    }

    /// The window the hot key is registered for.
    pub fn window(&self) -> (w: usize)
        ensures
            w == self.spec_window(),
    {
        self.window
    }

    /// The hot key's identifier.
    pub fn id(&self) -> (i: u32)
        ensures
            i == self.spec_id(),
    {
        self.id
    }

    /// The modifier bits to register for `binding`.
    pub fn modifiers_for(binding: &HotkeyBinding) -> (m: u32)
        ensures
            m == modifiers_spec(binding.ctrl, binding.shift, binding.alt),
            (m & 0x0002 != 0) == binding.ctrl,
            (m & 0x0004 != 0) == binding.shift,
            (m & 0x0001 != 0) == binding.alt,
            m & 0x4000 != 0,
            m & !0x4007u32 == 0,
    {
        let c: u32 = if binding.ctrl { MOD_CONTROL } else { 0 };
        let s: u32 = if binding.shift { MOD_SHIFT } else { 0 };
        let a: u32 = if binding.alt { MOD_ALT } else { 0 };
        let m = MOD_NOREPEAT | c | s | a;
        assert(m == 0x4000 + c + s + a) by (bit_vector)
            requires
                m == 0x4000u32 | c | s | a,
                c == 0 || c == 2,
                s == 0 || s == 4,
                a == 0 || a == 1,
        ;
        proof {
            lemma_modifier_bits(binding.ctrl, binding.shift, binding.alt);
        }
        m
    }

    /// The virtual key code to register for `binding`.
    pub fn key_for(binding: &HotkeyBinding) -> (k: u32)
        ensures
            k == binding.key,
    {
        binding.key as u32
    }

    /// Human-readable form of modifier bits: the names of the Ctrl, Shift and
    /// Alt modifiers that are set, joined by `+`.
    pub fn modifiers_to_string(modifiers: u32) -> (s: String)
        ensures
            s@ == join_with(modifier_names(modifiers), "+"@),
    {
        let ghost mut parts: Seq<Seq<char>> = Seq::empty();
        let mut out = String::new();
        let mut any = false;
        if modifiers & MOD_CONTROL == MOD_CONTROL {
            out.append("Ctrl");
            any = true;
            proof {
                parts = parts.push("Ctrl"@);
            }
        }
        assert(out@ == join_with(parts, "+"@) && (any <==> parts.len() > 0));
        if modifiers & MOD_SHIFT == MOD_SHIFT {
            if any {
                out.append("+");
            }
            out.append("Shift");
            any = true;
            proof {
                let old_parts = parts;
                parts = parts.push("Shift"@);
                assert(parts.drop_last() =~= old_parts);
            }
        }
        assert(out@ == join_with(parts, "+"@) && (any <==> parts.len() > 0));
        if modifiers & MOD_ALT == MOD_ALT {
            if any {
                out.append("+");
            }
            out.append("Alt");
            proof {
                let old_parts = parts;
                parts = parts.push("Alt"@);
                assert(parts.drop_last() =~= old_parts);
            }
        }
        assert(parts =~= modifier_names(modifiers));
        out
    }
}

} // verus!
