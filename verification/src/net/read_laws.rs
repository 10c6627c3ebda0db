//! What holds of every reading that the dispatch and the mailbox take of the client.
use crate::net::apply::{
    addressed_store, honor_text, is_gone, read_facts, read_flags, read_map, self_or_zero, Scene,
    UnitFacts,
};
use crate::net::mail::{
    make_equip_line, next_mail_time, row_of, take_empties, EquipError, MailCodes, MailListEntry,
    PendingCall,
};
use crate::net::steps::CooldownStore;
use crate::single::Single;
use crate::text::decimal_digits;
use vstd::prelude::*;

verus! {

/// A unit's facts are those of the entity that stands for it, and there are none where the unit is
/// unknown, stands for no entity, or the entity has no descriptor.
pub proof fn facts_are_those_of_the_units_entity(scene: &Scene, guid: u64, r: Option<UnitFacts>, none: Option<UnitFacts>)
    requires
        call_ensures(read_facts, (scene, Some(guid)), r),
        call_ensures(read_facts, (scene, None), none),
    ensures
        none is None,
        !scene.index@.contains_key(guid) ==> r is None,
        scene.index@.contains_key(guid) && !scene.stores@.contains_key(scene.index@[guid]) ==> r is None,
        scene.index@.contains_key(guid) && scene.stores@.contains_key(scene.index@[guid]) ==> r == Some(
            scene.stores@[scene.index@[guid]],
        ),
{
}

/// A unit is gone where it is dead or a spirit, and one that nothing is known of is not; its flags
/// are known exactly where its facts are.
pub proof fn the_dead_and_their_spirits_are_gone(facts: UnitFacts, r: bool, unknown: bool, flags: Option<u32>, none: Option<u32>)
    requires
        call_ensures(is_gone, (Some(facts),), r),
        call_ensures(is_gone, (None,), unknown),
        call_ensures(read_flags, (Some(facts),), flags),
        call_ensures(read_flags, (None,), none),
    ensures
        facts.dead ==> r,
        facts.spirit ==> r,
        r ==> facts.dead || facts.spirit,
        !unknown,
        flags == Some(facts.npc_flags),
        none is None,
{
}

/// What the session has not named yet reads as zero.
pub proof fn the_unnamed_reads_as_zero(guid: u64, map: u32, ours: u64, nobody: u64, here: u32, nowhere: u32)
    requires
        call_ensures(self_or_zero, (Some(guid),), ours),
        call_ensures(self_or_zero, (None,), nobody),
        call_ensures(read_map, (Some(map),), here),
        call_ensures(read_map, (None,), nowhere),
    ensures
        ours == guid && nobody == 0,
        here == map && nowhere == 0,
{
}

/// A cooldown of our own goes to the player's store, one of the pet's to the pet's, and anybody
/// else's to none; our own goes first.
pub proof fn a_cooldown_goes_to_its_casters_store(caster: u64, self_guid: Option<u64>, pet: Option<u64>, r: Option<CooldownStore>)
    requires
        call_ensures(addressed_store, (caster, self_guid, pet), r),
    ensures
        self_guid == Some(caster) ==> r == Some(CooldownStore::Player),
        self_guid != Some(caster) && pet == Some(caster) ==> r == Some(CooldownStore::Pet),
        self_guid != Some(caster) && pet != Some(caster) ==> r is None,
{
}

/// An award is spelled in digits, with a minus before them where honour is lost.
pub proof fn honour_is_spelled_with_its_sign(honor: i32, r: String)
    requires
        call_ensures(honor_text, (honor,), r),
    ensures
        honor >= 0 ==> r@ == decimal_digits(honor as nat),
        honor < 0 ==> r@.len() > 0 && r@[0] == '-' && r@.skip(1) == decimal_digits((-honor) as nat),
{
    if honor < 0 {
        assert(r@.skip(1) =~= decimal_digits((-honor) as nat));
    }
}

/// A take empties a mail only where nothing is left to keep it for: money where it was paid on
/// delivery or an auction's without an item, an item where no money is left and it is an auction's
/// or has no letter. No other answer empties one.
pub proof fn a_take_empties_what_has_nothing_left(entry: &MailListEntry, action: u32, codes: &MailCodes, r: bool)
    requires
        call_ensures(take_empties, (entry, action, codes), r),
        codes.money_taken != codes.item_taken,
    ensures
        action != codes.money_taken && action != codes.item_taken ==> !r,
        action == codes.money_taken ==> (r <==> entry.checked & 8 != 0 || (entry.message_type == codes.auction && entry.item is None)),
        action == codes.item_taken && entry.money != 0 ==> !r,
        action == codes.item_taken && entry.money == 0 ==> (r <==> entry.message_type == codes.auction || entry.item_text_id == 0),
{
}

/// A mail's row is the first with its number.
pub proof fn the_first_row_of_a_number_is_its_mails(mails: &Vec<MailListEntry>, mail_id: u32, r: Option<usize>, k: int)
    requires
        call_ensures(row_of, (mails, mail_id), r),
        0 <= k < mails@.len(),
    ensures
        mails@[k].message_id == mail_id ==> (r matches Some(at) && at <= k),
        r matches Some(at) ==> at < mails@.len() && mails@[at as int].message_id == mail_id,
{
    if mails@[k].message_id == mail_id {
        assert(mails@[k].message_id == mail_id);
    }
}

/// A refused bag carries the low byte of its code, none without one, and speaks of no level and no
/// bag; a mail time is queued as it came.
pub proof fn a_refused_bag_carries_its_code(code: u32, r: EquipError, plain: EquipError, seconds: Single, call: PendingCall)
    requires
        call_ensures(make_equip_line, (Some(code),), r),
        call_ensures(make_equip_line, (None,), plain),
        call_ensures(next_mail_time, (seconds,), call),
    ensures
        r.reason == code % 256,
        plain.reason == 0,
        r.required_level is None && plain.required_level is None,
        r.bag_slot == 255 && plain.bag_slot == 255,
        call == (PendingCall::QueryReply { seconds }),
{
}

} // verus!
