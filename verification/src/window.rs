//! The overlay window: its title as the system spells it and its style bits.

use vstd::prelude::*;

verus! {

/// The title by which the overlay window is found.
pub const WINDOW_TITLE: &'static str = "EguiMagnifierBall_Overlay";

/// The UTF-16 code units of a character: one, or two for a character beyond the
/// basic plane.
pub open spec fn utf16_units(c: char) -> Seq<u16> {
    let code = c as int;
    if code < 0x1_0000 {
        seq![code as u16]
    } else {
        seq![
            (0xd800 + (code - 0x1_0000) / 0x400) as u16,
            (0xdc00 + (code - 0x1_0000) % 0x400) as u16,
        ]
    }
}

/// The UTF-16 code units of a text.
pub open spec fn utf16(text: Seq<char>) -> Seq<u16>
    decreases text.len(),
{
    if text.len() == 0 {
        Seq::empty()
    } else {
        utf16(text.drop_last()) + utf16_units(text.last())
    }
}

/// A text in UTF-16, with a zero at its end.
pub open spec fn wide_spelling(text: Seq<char>) -> Seq<u16> {
    utf16(text).push(0)
}

/// The title in UTF-16, with a zero at its end.
pub fn wide_title(title: &str) -> (wide: Vec<u16>)
    ensures
        wide@ == wide_spelling(title@),
        wide@ == utf16(title@).push(0),
{
    let mut wide: Vec<u16> = Vec::new();
    let len: usize = title.unicode_len();
    let mut at: usize = 0;
    while at < len
        invariant
            at <= len,
            len == title@.len(),
            wide@ == utf16(title@.take(at as int)),
        decreases len - at,
    {
        let code: u32 = title.get_char(at) as u32;
        assert(title@.take(at + 1).drop_last() =~= title@.take(at as int));
        if code < 0x1_0000 {
            wide.push(code as u16);
        } else {
            let rest: u32 = code - 0x1_0000;
            wide.push((0xd800 + rest / 0x400) as u16);
            wide.push((0xdc00 + rest % 0x400) as u16);
        }
        at = at + 1;
    }
    assert(title@.take(len as int) =~= title@);
    wide.push(0);
    wide
}

/// The text that UTF-16 code units spell.
pub open spec fn utf16_text(units: Seq<u16>) -> Seq<char>
    decreases units.len(),
{
    if units.len() == 0 {
        Seq::empty()
    } else if units.len() >= 2 && 0xdc00 <= units.last() < 0xe000 {
        let (high, low) = (units[units.len() - 2], units.last());
        let code = 0x1_0000 + (high - 0xd800) * 0x400 + (low - 0xdc00);
        utf16_text(units.take(units.len() - 2)).push(code as char)
    } else {
        utf16_text(units.drop_last()).push(units.last() as char)
    }
}

/// Characters are the code points other than surrogates.
proof fn character_range(c: char)
    ensures
        0 <= c as int <= 0x10_ffff,
        (c as int) < 0xd800 || 0xe000 <= c as int,
{
}

/// A title can be read back from its code units: none are lost and no two
/// titles are spelled alike.
pub proof fn titles_can_be_read_back(text: Seq<char>)
    ensures
        utf16_text(utf16(text)) == text,
    decreases text.len(),
{
    if text.len() > 0 {
        let c = text.last();
        let before = utf16(text.drop_last());
        let units = utf16(text);
        titles_can_be_read_back(text.drop_last());
        let code = c as int;
        character_range(c);
        if code < 0x1_0000 {
            assert(units.drop_last() =~= before);
        } else {
            assert(units.take(units.len() - 2) =~= before);
        }
        assert(text.drop_last().push(c) =~= text);
    }
}

/// A title without a zero character has no zero among its code units, so the
/// zero at the end is the first one.
pub proof fn titles_end_at_the_zero(text: Seq<char>, i: int)
    requires
        forall|j: int| 0 <= j < text.len() ==> #[trigger] text[j] != '\0',
        0 <= i < utf16(text).len(),
    ensures
        utf16(text)[i] != 0,
    decreases text.len(),
{
    if text.len() > 0 {
        let before = utf16(text.drop_last());
        if i < before.len() {
            titles_end_at_the_zero(text.drop_last(), i);
        } else {
            let c = text[text.len() - 1];
            character_range(c);
            assert(utf16(text)[i] == utf16_units(c)[i - before.len()]);
        }
    }
}

/// Reads `windows_sys`'s `WS_EX_TOOLWINDOW`, the style bit that keeps a window
/// out of the taskbar and the task switcher.
#[verifier::external_body]
fn tool_window_bit() -> (bit: u32)
    ensures
        bit == 0x80,
{
    windows_sys::Win32::UI::WindowsAndMessaging::WS_EX_TOOLWINDOW
}

/// Reads `windows_sys`'s `WS_EX_NOACTIVATE`, the style bit that keeps a click on
/// a window from moving the focus to it.
#[verifier::external_body]
fn no_activate_bit() -> (bit: u32)
    ensures
        bit == 0x0800_0000,
{
    windows_sys::Win32::UI::WindowsAndMessaging::WS_EX_NOACTIVATE
}

/// The extended style of the overlay window: what it has, and in addition no
/// entry in the taskbar and no activation by a click.
pub fn overlay_style(current: isize) -> (style: isize)
    ensures
        style == current | 0x0800_0080isize,
{
    let extra: u32 = tool_window_bit() | no_activate_bit();
    assert(0x80u32 | 0x0800_0000u32 == 0x0800_0080u32) by (bit_vector);
    current | (extra as isize)
}

/// The overlay has both style bits, and every other bit is as it was.
pub proof fn overlay_style_adds_two_bits(current: isize, bit: isize)
    ensures
        (current | 0x0800_0080isize) & 0x80isize == 0x80isize,
        (current | 0x0800_0080isize) & 0x0800_0000isize == 0x0800_0000isize,
        bit & 0x0800_0080isize == 0 ==> (current | 0x0800_0080isize) & bit == current & bit,
{
    assert((current | 0x0800_0080isize) & 0x80isize == 0x80isize) by (bit_vector);
    assert((current | 0x0800_0080isize) & 0x0800_0000isize == 0x0800_0000isize) by (bit_vector);
    assert(bit & 0x0800_0080isize == 0 ==> (current | 0x0800_0080isize) & bit == current & bit)
        by (bit_vector);
}

/// Applying the style again changes nothing.
pub proof fn overlay_style_is_stable(current: isize)
    ensures
        (current | 0x0800_0080isize) | 0x0800_0080isize == current | 0x0800_0080isize,
{
    assert((current | 0x0800_0080isize) | 0x0800_0080isize == current | 0x0800_0080isize)
        by (bit_vector);
}

/// A character of the basic plane is its own code unit. Any other is a high and a
/// low surrogate, which together hold its ten upper and its ten lower bits.
pub proof fn characters_are_spelled_in_utf16(c: char)
    ensures
        ({
            let units = utf16(seq![c]);
            &&& (c as int) < 0x1_0000 ==> units.len() == 1 && units[0] == c as int
            &&& c as int >= 0x1_0000 ==> {
                &&& units.len() == 2
                &&& 0xd800 <= units[0] < 0xdc00
                &&& 0xdc00 <= units[1] < 0xe000
                &&& 0x1_0000 + (units[0] - 0xd800) * 0x400 + (units[1] - 0xdc00) == c as int
            }
        }),
{
    character_range(c);
    assert(seq![c].drop_last() =~= Seq::<char>::empty());
    assert(utf16(seq![c].drop_last()).len() == 0);
}

/// A text is spelled part by part, in order.
pub proof fn texts_are_spelled_in_order(first: Seq<char>, second: Seq<char>)
    ensures
        utf16(first + second) == utf16(first) + utf16(second),
    decreases second.len(),
{
    if second.len() == 0 {
        assert(first + second =~= first);
        assert(utf16(first) + utf16(second) =~= utf16(first));
    } else {
        texts_are_spelled_in_order(first, second.drop_last());
        assert((first + second).drop_last() =~= first + second.drop_last());
        assert(utf16(first + second) =~= utf16(first) + utf16(second));
    }
}

/// A wide title ends in a zero, and what stands before it spells the title.
pub proof fn wide_titles_end_in_a_zero(text: Seq<char>)
    ensures
        wide_spelling(text).len() > 0,
        wide_spelling(text).last() == 0,
        utf16_text(wide_spelling(text).drop_last()) == text,
{
    titles_can_be_read_back(text);
    assert(wide_spelling(text).drop_last() =~= utf16(text));
}

} // verus!
