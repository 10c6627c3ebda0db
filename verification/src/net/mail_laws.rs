//! What holds of every answer the mailbox gets.
use crate::net::mail::{
    a_closed_mailbox_asks_nothing, equip_line, expired, first_row, mail_item_text, mail_list,
    no_expired_row_is_shown, no_row, purges, received_mail, send_ack, send_mail_result,
    settle_mail, settled, unexpired, ClientCommand, EquipError, MailCodes, MailListEntry, MailOpen, PendingCall,
};
use crate::single::Single;
use vstd::prelude::*;

verus! {

/// The codes of the two takes are told apart.
pub open spec fn takes_differ(codes: MailCodes) -> bool {
    codes.money_taken != codes.item_taken
}

/// None of the commands deletes a mail.
pub open spec fn deletes_nothing(asked: Seq<ClientCommand>) -> bool {
    forall|k: int| 0 <= k < asked.len() ==> !((#[trigger] asked[k]) is MailDelete)
}

/// A mail whose item is taken while it still holds money stays in the list with that money and
/// with all else it held but the item: it is not deleted and its window is not closed.
pub proof fn an_item_take_leaves_the_money(
    before: MailOpen,
    after: MailOpen,
    asked: Seq<ClientCommand>,
    mail_id: u32,
    codes: MailCodes,
    at: int,
)
    requires
        takes_differ(codes),
        settled(before, after, asked, mail_id, codes.item_taken, codes),
        first_row(before.mails@, mail_id, at),
        before.mails@[at].money > 0,
    ensures
        after.mails@.len() == before.mails@.len(),
        after.mails@[at].message_id == mail_id,
        after.mails@[at].money == before.mails@[at].money,
        after.mails@[at].item is None,
        after.mails@[at].message_type == before.mails@[at].message_type,
        after.mails@[at].item_text_id == before.mails@[at].item_text_id,
        after.mails@[at].checked == before.mails@[at].checked,
        after.mails@[at].expire_days == before.mails@[at].expire_days,
        after.close_inbox@ == before.close_inbox@,
        deletes_nothing(asked),
{
}

/// A mail whose money is taken while it still holds an item, and that is no paid delivery, stays
/// in the list with that item and with all else it held but the money.
pub proof fn a_money_take_leaves_the_item(
    before: MailOpen,
    after: MailOpen,
    asked: Seq<ClientCommand>,
    mail_id: u32,
    codes: MailCodes,
    at: int,
)
    requires
        settled(before, after, asked, mail_id, codes.money_taken, codes),
        first_row(before.mails@, mail_id, at),
        before.mails@[at].item is Some,
        before.mails@[at].checked & 8 == 0,
    ensures
        after.mails@.len() == before.mails@.len(),
        after.mails@[at].message_id == mail_id,
        after.mails@[at].money == 0,
        after.mails@[at].item == before.mails@[at].item,
        after.mails@[at].message_type == before.mails@[at].message_type,
        after.mails@[at].item_text_id == before.mails@[at].item_text_id,
        after.mails@[at].checked == before.mails@[at].checked,
        after.mails@[at].expire_days == before.mails@[at].expire_days,
        after.close_inbox@ == before.close_inbox@,
        deletes_nothing(asked),
{
}

/// An answer about one mail leaves every other row of the list as it was and in its order: those
/// before it in their places, those behind it in theirs, or one place up where it went.
pub proof fn no_other_mail_is_touched(
    before: MailOpen,
    after: MailOpen,
    asked: Seq<ClientCommand>,
    mail_id: u32,
    action: u32,
    codes: MailCodes,
    at: int,
    k: int,
)
    requires
        settled(before, after, asked, mail_id, action, codes),
        first_row(before.mails@, mail_id, at),
        0 <= k < before.mails@.len(),
        k != at,
    ensures
        after.mails@.len() == before.mails@.len() || after.mails@.len() == before.mails@.len() - 1,
        k < at ==> after.mails@[k] == before.mails@[k],
        k > at ==> after.mails@[k - (before.mails@.len() - after.mails@.len())]
            == before.mails@[k],
{
}

/// A mail leaves the list exactly when a take has left nothing in it: the money of a paid
/// delivery, the money of an auction notice without an item, or the item of a mail without money
/// that is an auction notice or has no letter.
pub proof fn only_an_emptied_mail_goes(
    before: MailOpen,
    after: MailOpen,
    asked: Seq<ClientCommand>,
    mail_id: u32,
    action: u32,
    codes: MailCodes,
    at: int,
)
    requires
        takes_differ(codes),
        settled(before, after, asked, mail_id, action, codes),
        first_row(before.mails@, mail_id, at),
    ensures
        after.mails@.len() < before.mails@.len() <==> {
            let row = before.mails@[at];
            ||| action == codes.money_taken && row.checked & 8 != 0
            ||| action == codes.money_taken && row.message_type == codes.auction && row.item is None
            ||| action == codes.item_taken && row.money == 0 && row.message_type == codes.auction
            ||| action == codes.item_taken && row.money == 0 && row.item_text_id == 0
        },
{
}

/// A mail that goes is deleted on the server and its window, which counts rows from one, is
/// closed; a mail that stays has neither done to it. Either way an open mailbox asks for its list
/// anew, last of all, and a closed one asks for nothing.
pub proof fn a_mail_that_goes_is_deleted_and_closed(
    before: MailOpen,
    after: MailOpen,
    asked: Seq<ClientCommand>,
    mail_id: u32,
    action: u32,
    codes: MailCodes,
    at: int,
)
    requires
        settled(before, after, asked, mail_id, action, codes),
        first_row(before.mails@, mail_id, at),
        before.mails@.len() <= u32::MAX,
    ensures
        before.mailbox is None ==> asked.len() == 0,
        before.mailbox matches Some(m) ==> asked.len() >= 1 && asked.last()
            == (ClientCommand::GetMailList { mailbox: m }),
        before.mailbox matches Some(m) ==> (after.mails@.len() < before.mails@.len()
            ==> asked.len() == 2 && asked[0] == (ClientCommand::MailDelete { mailbox: m, mail_id })),
        after.mails@.len() == before.mails@.len() ==> deletes_nothing(asked) && asked.len() <= 1,
        after.mails@.len() < before.mails@.len() ==> after.close_inbox@.len()
            == before.close_inbox@.len() + 1 && after.close_inbox@.last() == at + 1
            && after.close_inbox@.drop_last() == before.close_inbox@,
        after.mails@.len() == before.mails@.len() ==> after.close_inbox@ == before.close_inbox@,
{
    assert(after.mails@.len() < before.mails@.len() ==> after.close_inbox@.drop_last()
        =~= before.close_inbox@);
}

/// An answer to a return or a deletion, and one about a mail that is not listed, changes no row
/// and only asks for the list anew.
pub proof fn other_answers_only_refresh(
    before: MailOpen,
    after: MailOpen,
    asked: Seq<ClientCommand>,
    mail_id: u32,
    action: u32,
    codes: MailCodes,
    at: int,
)
    requires
        settled(before, after, asked, mail_id, action, codes),
        no_row(before.mails@, mail_id) || (first_row(before.mails@, mail_id, at) && action
            != codes.money_taken && action != codes.item_taken),
    ensures
        after.mails@ == before.mails@,
        after.close_inbox@ == before.close_inbox@,
        deletes_nothing(asked),
        asked.len() == 1 <==> before.mailbox is Some,
{
    assert(after.mails@ =~= before.mails@);
}

/// A settled answer touches nothing of the session but its rows and the windows to close.
pub proof fn a_settled_answer_keeps_the_letters(
    before: MailOpen,
    after: MailOpen,
    asked: Seq<ClientCommand>,
    mail_id: u32,
    action: u32,
    codes: MailCodes,
)
    requires
        settled(before, after, asked, mail_id, action, codes),
    ensures
        after.mailbox == before.mailbox,
        after.bodies == before.bodies,
        after.pending_bodies == before.pending_bodies,
        after.send_acks@ == before.send_acks@,
        after.errors@ == before.errors@,
{
}

/// A row's timer has run out at zero and below it, and a timer that is no number never runs out.
pub proof fn a_timer_runs_out_at_zero(entry: MailListEntry)
    ensures
        entry.expire_days.bits == 0 ==> expired(entry),
        entry.expire_days.negative() && !entry.expire_days.not_a_number() ==> expired(entry),
        !entry.expire_days.negative() && entry.expire_days.bits != 0 ==> !expired(entry),
        entry.expire_days.not_a_number() ==> !expired(entry),
{
}

/// A fresh list of an open mailbox deletes as many mails as it hides, each an expired one under
/// its own number, and asks for nothing else.
pub proof fn every_hidden_mail_is_deleted(mails: Seq<MailListEntry>, mailbox: u64)
    ensures
        purges(mails, Some(mailbox)).len() + unexpired(mails).len() == mails.len(),
        forall|k: int|
            0 <= k < purges(mails, Some(mailbox)).len() ==> exists|j: int|
                0 <= j < mails.len() && expired(mails[j]) && #[trigger] purges(
                    mails,
                    Some(mailbox),
                )[k] == (ClientCommand::MailDelete {
                    mailbox,
                    mail_id: (#[trigger] mails[j]).message_id,
                }),
        forall|j: int|
            0 <= j < mails.len() && expired(#[trigger] mails[j]) ==> purges(
                mails,
                Some(mailbox),
            ).contains(ClientCommand::MailDelete { mailbox, mail_id: mails[j].message_id }),
    decreases mails.len(),
{
    reveal_with_fuel(Seq::filter, 2);
    if mails.len() > 0 {
        let rest = mails.drop_last();
        let old = purges(rest, Some(mailbox));
        let new = purges(mails, Some(mailbox));
        every_hidden_mail_is_deleted(rest, mailbox);
        assert forall|k: int| 0 <= k < new.len() implies exists|j: int|
            0 <= j < mails.len() && expired(mails[j]) && #[trigger] new[k]
                == (ClientCommand::MailDelete { mailbox, mail_id: (#[trigger] mails[j]).message_id }) by {
            if k < old.len() {
                let j = choose|j: int|
                    0 <= j < rest.len() && expired(rest[j]) && old[k]
                        == (ClientCommand::MailDelete {
                        mailbox,
                        mail_id: (#[trigger] rest[j]).message_id,
                    });
                assert(mails[j] == rest[j]);
            } else {
                assert(mails[mails.len() - 1] == mails.last());
            }
        }
        assert forall|j: int| 0 <= j < mails.len() && expired(
            #[trigger] mails[j],
        ) implies new.contains(ClientCommand::MailDelete { mailbox, mail_id: mails[j].message_id }) by {
            let gone = ClientCommand::MailDelete { mailbox, mail_id: mails[j].message_id };
            if j < rest.len() {
                assert(rest[j] == mails[j]);
                assert(old.contains(gone));
                let k = choose|k: int| 0 <= k < old.len() && old[k] == gone;
                assert(new[k] == gone);
            } else {
                assert(new[new.len() - 1] == gone);
            }
        }
    }
}

/// A refusal is shown only for a letter that did not go, names the server's own error, and is
/// never an inventory error, which has a surface of its own.
pub proof fn a_refusal_names_its_error(error: u32, codes: MailCodes)
    ensures
        send_ack(error, codes).ok <==> error == codes.ok,
        send_ack(error, codes).ok ==> send_ack(error, codes).refusal is None,
        send_ack(error, codes).refusal matches Some(shown) ==> shown == error && shown
            != codes.equip_error,
        error != codes.ok && error != codes.equip_error ==> send_ack(error, codes).refusal is Some,
{
}

/// An inventory line carries the low byte of its code, asks for no level, and stands on the
/// player's own array; an answer without a code counts as code 0.
pub proof fn an_inventory_line_carries_its_code(equip_error: Option<u32>, code: u32)
    requires
        code == equip_error.unwrap_or(0),
    ensures
        equip_line(equip_error).reason == code % 256,
        equip_line(equip_error).required_level is None,
        equip_line(equip_error).bag_slot == u8::MAX,
{
}

/// Mail that arrives starts the countdown it names, and counts as busy exactly while a mailbox is
/// open.
pub proof fn arriving_mail_starts_its_countdown(seconds: Single, mail: &MailOpen, call: PendingCall, commands: &mut Vec<ClientCommand>)
    requires
        call_ensures(received_mail, (seconds, mail, commands), call),
    ensures
        call matches PendingCall::ReceivedMail { seconds: s, busy } && s == seconds && (busy
            <==> mail.mailbox is Some),
{
}

/// The server's word that an item was taken off a mail that still holds money leaves that mail
/// listed with its money, closes no window, and sends the server nothing but the request for the
/// list. So does a settlement on its own.
pub proof fn a_taken_item_costs_no_money(
    mail_id: u32,
    equip_error: Option<u32>,
    codes: &MailCodes,
    mail: &mut MailOpen,
    commands: &mut Vec<ClientCommand>,
    equip_errors: &mut Vec<EquipError>,
    at: int,
)
    requires
        takes_differ(*codes),
        codes.item_taken != codes.send,
        call_ensures(
            send_mail_result,
            (mail_id, codes.item_taken, codes.ok, equip_error, codes, mail, commands, equip_errors),
            (),
        ) || call_ensures(settle_mail, (mail_id, codes.item_taken, codes, mail, commands), ()),
        first_row(old(mail).mails@, mail_id, at),
        old(mail).mails@[at].money > 0,
    ensures
        final(mail).mails@.len() == old(mail).mails@.len(),
        final(mail).mails@[at].message_id == mail_id,
        final(mail).mails@[at].money == old(mail).mails@[at].money,
        final(mail).mails@[at].item is None,
        final(mail).close_inbox@ == old(mail).close_inbox@,
        deletes_nothing(final(commands)@.skip(old(commands)@.len() as int)),
        final(commands)@.take(old(commands)@.len() as int) == old(commands)@,
        final(commands)@.len() == old(commands)@.len() + (if old(mail).mailbox is Some {
            1int
        } else {
            0
        }),
{
    let n = old(commands)@.len() as int;
    let asked = final(commands)@.skip(n);
    assert(settled(*old(mail), *final(mail), asked, mail_id, codes.item_taken, *codes));
    an_item_take_leaves_the_money(*old(mail), *final(mail), asked, mail_id, *codes, at);
    assert(final(commands)@.take(n) =~= old(commands)@);
    assert(asked.len() == final(commands)@.len() - n);
    assert(asked.len() == 1 <==> old(mail).mailbox is Some);
}

/// The server's answer to a sent letter is acknowledged once, with its own error, and touches
/// neither rows nor commands; any other error is kept as a line to show, or put on the inventory
/// surface where it is one, and takes nothing off any mail.
pub proof fn a_failed_answer_takes_nothing(
    mail_id: u32,
    action: u32,
    error: u32,
    equip_error: Option<u32>,
    codes: &MailCodes,
    mail: &mut MailOpen,
    commands: &mut Vec<ClientCommand>,
    equip_errors: &mut Vec<EquipError>,
)
    requires
        call_ensures(
            send_mail_result,
            (mail_id, action, error, equip_error, codes, mail, commands, equip_errors),
            (),
        ),
        action == codes.send || error != codes.ok,
    ensures
        final(mail).mails@ == old(mail).mails@,
        final(mail).close_inbox@ == old(mail).close_inbox@,
        final(mail).mailbox == old(mail).mailbox,
        final(commands)@ == old(commands)@,
        action == codes.send ==> final(mail).send_acks@.len() == old(mail).send_acks@.len() + 1
            && (final(mail).send_acks@.last().ok <==> error == codes.ok) && final(mail).errors@
            == old(mail).errors@,
        action != codes.send ==> final(mail).send_acks@ == old(mail).send_acks@,
        action != codes.send && error != codes.equip_error ==> final(mail).errors@.len()
            == old(mail).errors@.len() + 1 && final(mail).errors@.last() == error
            && final(equip_errors)@ == old(equip_errors)@,
        action != codes.send && error == codes.equip_error ==> final(mail).errors@
            == old(mail).errors@,
        error == codes.equip_error ==> final(equip_errors)@.len() == old(equip_errors)@.len() + 1
            && final(equip_errors)@.last().reason == equip_error.unwrap_or(0) % 256,
{
}

/// A letter body that arrives can be read under its own number, is no longer asked for, and
/// leaves every other body and every other question as they were.
pub proof fn a_letter_body_lands_under_its_number(
    text_id: u32,
    text: String,
    mail: &mut MailOpen,
    other: u32,
)
    requires
        call_ensures(mail_item_text, (text_id, text, mail), ()),
        other != text_id,
    ensures
        final(mail).bodies@.contains_key(text_id) && final(mail).bodies@[text_id] == text,
        !final(mail).pending_bodies@.contains(text_id),
        final(mail).bodies@.contains_key(other) <==> old(mail).bodies@.contains_key(other),
        old(mail).bodies@.contains_key(other) ==> final(mail).bodies@[other]
            == old(mail).bodies@[other],
        final(mail).pending_bodies@.contains(other) <==> old(mail).pending_bodies@.contains(other),
        final(mail).mails@ == old(mail).mails@,
        final(mail).mailbox == old(mail).mailbox,
{
}

/// A list with one row more at its end shows that row at the end of what it shows, or deletes it
/// after all that it deletes: neither changes anything of the rows before.
pub proof fn a_later_row_comes_later(mails: Seq<MailListEntry>, entry: MailListEntry, mailbox: u64)
    ensures
        expired(entry) ==> unexpired(mails.push(entry)) == unexpired(mails) && purges(
            mails.push(entry),
            Some(mailbox),
        ).drop_last() == purges(mails, Some(mailbox)),
        !expired(entry) ==> unexpired(mails.push(entry)).drop_last() == unexpired(mails)
            && unexpired(mails.push(entry)).last() == entry && purges(
            mails.push(entry),
            Some(mailbox),
        ) == purges(mails, Some(mailbox)),
{
    reveal_with_fuel(Seq::filter, 2);
    let more = mails.push(entry);
    assert(more.drop_last() =~= mails);
    assert(unexpired(mails).push(entry).drop_last() =~= unexpired(mails));
    assert(expired(entry) ==> purges(more, Some(mailbox)).drop_last() =~= purges(
        mails,
        Some(mailbox),
    ));
}

/// A fresh list shows the rows whose timer still runs and nothing else, whatever stood there
/// before, and deletes the others.
pub proof fn a_fresh_list_replaces_the_old_one(
    mails: Vec<MailListEntry>,
    mail: &mut MailOpen,
    commands: &mut Vec<ClientCommand>,
    k: int,
)
    requires
        call_ensures(mail_list, (mails, mail, commands), ()),
    ensures
        0 <= k < mails@.len() && !expired(mails@[k]) ==> final(mail).mails@.contains(mails@[k]),
        0 <= k < final(mail).mails@.len() ==> !expired(final(mail).mails@[k]) && mails@.contains(
            final(mail).mails@[k],
        ),
        final(mail).mails@.len() <= mails@.len(),
        final(mail).mailbox == old(mail).mailbox,
        final(mail).close_inbox@ == old(mail).close_inbox@,
        old(mail).mailbox is None ==> final(commands)@ == old(commands)@,
        old(mail).mailbox is Some ==> final(commands)@.len() - old(commands)@.len()
            == mails@.len() - final(mail).mails@.len(),
{
    broadcast use vstd::seq_lib::group_filter_ensures;
    match old(mail).mailbox {
        Some(mailbox) => every_hidden_mail_is_deleted(mails@, mailbox),
        None => {
            a_closed_mailbox_asks_nothing(mails@, false, 0);
            every_hidden_mail_is_deleted(mails@, 0);
        },
    }
    if 0 <= k < mails@.len() {
        no_expired_row_is_shown(mails@, k);
    }
    let shown = final(mail).mails@;
    if 0 <= k < shown.len() {
        assert(shown.contains(shown[k]));
        mails@.lemma_filter_contains_rev(|e: MailListEntry| !expired(e), shown[k]);
    }
    assert(final(commands)@ =~= old(commands)@ + purges(mails@, old(mail).mailbox));
}

/// A good answer to anything but a sent letter settles its mail, whether it is handed in whole or
/// already told apart, and only adds to what is asked of the server.
pub proof fn a_good_answer_settles_its_mail(
    mail_id: u32,
    action: u32,
    codes: &MailCodes,
    equip_error: Option<u32>,
    mail: &mut MailOpen,
    commands: &mut Vec<ClientCommand>,
    equip_errors: &mut Vec<EquipError>,
    answered: (),
    direct: &mut MailOpen,
    direct_commands: &mut Vec<ClientCommand>,
    settled_directly: (),
)
    requires
        call_ensures(
            send_mail_result,
            (mail_id, action, codes.ok, equip_error, codes, mail, commands, equip_errors),
            answered,
        ),
        action != codes.send,
        call_ensures(settle_mail, (mail_id, action, codes, direct, direct_commands), settled_directly),
    ensures
        settled(
            *old(mail),
            *final(mail),
            (*final(commands))@.skip((*old(commands))@.len() as int),
            mail_id,
            action,
            *codes,
        ),
        (*final(commands))@.take((*old(commands))@.len() as int) == (*old(commands))@,
        settled(
            *old(direct),
            *final(direct),
            (*final(direct_commands))@.skip((*old(direct_commands))@.len() as int),
            mail_id,
            action,
            *codes,
        ),
{
}

} // verus!
