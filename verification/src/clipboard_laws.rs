//! What happens to the clipboard, said of what was on it and of the keys that are
//! down.

use crate::clipboard::{
    data_formats, listed_formats, protocol_target, shortcut_events, ListingError, SourceView,
    TaskView,
};
use crate::codes::{InputEvent, KeyCode, KEY_LEFTCTRL, KEY_LEFTSHIFT, KEY_V};
use crate::keyboard_laws::keys_after;
use crate::text_input::texts_view;
use vstd::prelude::*;

verus! {

/// Four names are targets of the clipboard protocol.
pub proof fn law_protocol_targets(name: Seq<char>)
    ensures
        protocol_target("TARGETS"@),
        protocol_target("MULTIPLE"@),
        protocol_target("SAVE_TARGETS"@),
        protocol_target("COMPOUND_TEXT"@),
        protocol_target(name) ==> name == "TARGETS"@ || name == "MULTIPLE"@ || name
            == "SAVE_TARGETS"@ || name == "COMPOUND_TEXT"@,
{
}

/// The formats that are read are those of the listing that are no targets, as often
/// and in the order in which they are listed.
pub proof fn law_data_formats_keep_their_order(
    first: Seq<Seq<char>>,
    second: Seq<Seq<char>>,
    name: Seq<char>,
)
    ensures
        data_formats(first + second) == data_formats(first) + data_formats(second),
        data_formats(seq![name]) == (if protocol_target(name) {
            Seq::<Seq<char>>::empty()
        } else {
            seq![name]
        }),
        data_formats(Seq::<Seq<char>>::empty()) == Seq::<Seq<char>>::empty(),
    decreases second.len(),
{
    assert(seq![name].drop_last() =~= Seq::<Seq<char>>::empty());
    assert(data_formats(Seq::<Seq<char>>::empty()) =~= Seq::<Seq<char>>::empty());
    assert(data_formats(seq![name]) =~= if protocol_target(name) {
        Seq::<Seq<char>>::empty()
    } else {
        seq![name]
    });
    if second.len() == 0 {
        assert(first + second =~= first);
        assert(data_formats(first) + data_formats(second) =~= data_formats(first));
    } else {
        assert((first + second).drop_last() =~= first + second.drop_last());
        law_data_formats_keep_their_order(first, second.drop_last(), name);
        assert(data_formats(first + second) =~= data_formats(first) + data_formats(second));
    }
}

/// A clipboard without a seat, without contents or without a format is empty; any
/// other failure is one.
pub proof fn law_empty_clipboards_are_no_failure(names: Vec<String>, error: String)
    ensures
        listed_formats(Ok(names)) matches Ok(listed) && listed == texts_view(names@),
        listed_formats(Err(ListingError::NoSeats)) matches Ok(listed) && listed.len() == 0,
        listed_formats(Err(ListingError::ClipboardEmpty)) matches Ok(listed) && listed.len() == 0,
        listed_formats(Err(ListingError::NoMimeType)) matches Ok(listed) && listed.len() == 0,
        listed_formats(Err(ListingError::Other(error))) matches Err(told) && told == error@,
{
}

/// A snapshot after some of its formats have been read.
pub open spec fn read_so_far(types: Seq<Seq<char>>, read: Seq<SourceView>) -> TaskView {
    TaskView { types, sources: read }
}

/// A snapshot is done when every format has been read, and not before.
pub proof fn law_snapshots_read_every_format(types: Seq<Seq<char>>, read: Seq<SourceView>)
    requires
        read.len() <= types.len(),
    ensures
        read_so_far(types, read).unfinished() <==> read.len() != types.len(),
{
}

/// The keys that are down while V is pressed, when no key was down before.
pub open spec fn held_with_v(events: Seq<InputEvent>) -> Set<KeyCode> {
    keys_after(Set::empty(), events.take(events.len() as int / 2))
}

/// The paste shortcut is V with Control, and with Shift where that is asked for.
/// Behind it no key is down that was not down before.
pub proof fn law_paste_shortcut_is_control_and_v(with_shift: bool)
    ensures
        held_with_v(shortcut_events(with_shift)) == (if with_shift {
            set![KEY_LEFTCTRL, KEY_LEFTSHIFT, KEY_V]
        } else {
            set![KEY_LEFTCTRL, KEY_V]
        }),
        keys_after(Set::empty(), shortcut_events(with_shift)) == Set::<KeyCode>::empty(),
        shortcut_events(with_shift)[shortcut_events(with_shift).len() / 2 - 1].code == KEY_V,
{
    let events = shortcut_events(with_shift);
    reveal_with_fuel(keys_after, 7);
    let none = Set::<KeyCode>::empty();
    if with_shift {
        assert(events.drop_last() =~= events.take(5));
        assert(events.take(5).drop_last() =~= events.take(4));
        assert(events.take(4).drop_last() =~= events.take(3));
        assert(events.take(3).drop_last() =~= events.take(2));
        assert(events.take(2).drop_last() =~= events.take(1));
        assert(events.take(1).drop_last() =~= events.take(0));
        assert(keys_after(none, events.take(0)) =~= none);
        assert(keys_after(none, events.take(1)) =~= set![KEY_LEFTCTRL]);
        assert(keys_after(none, events.take(2)) =~= set![KEY_LEFTCTRL, KEY_LEFTSHIFT]);
        assert(keys_after(none, events.take(3)) =~= set![KEY_LEFTCTRL, KEY_LEFTSHIFT, KEY_V]);
        assert(keys_after(none, events.take(4)) =~= set![KEY_LEFTCTRL, KEY_LEFTSHIFT]);
        assert(keys_after(none, events.take(5)) =~= set![KEY_LEFTCTRL]);
        assert(keys_after(none, events) =~= none);
    } else {
        assert(events.drop_last() =~= events.take(3));
        assert(events.take(3).drop_last() =~= events.take(2));
        assert(events.take(2).drop_last() =~= events.take(1));
        assert(events.take(1).drop_last() =~= events.take(0));
        assert(keys_after(none, events.take(0)) =~= none);
        assert(keys_after(none, events.take(1)) =~= set![KEY_LEFTCTRL]);
        assert(keys_after(none, events.take(2)) =~= set![KEY_LEFTCTRL, KEY_V]);
        assert(keys_after(none, events.take(3)) =~= set![KEY_LEFTCTRL]);
        assert(keys_after(none, events) =~= none);
    }
}

} // verus!
