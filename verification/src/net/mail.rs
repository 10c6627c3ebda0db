//! The mailbox half of the session: the inbox list, the answers to takes and sends, the letter
//! bodies, and the arrival countdown.
use crate::single::{Single, ZERO_BITS};
use std::collections::HashMap;
use std::collections::HashSet;
use vstd::prelude::*;

verus! {

broadcast use vstd::std_specs::hash::group_hash_axioms;

/// The numbers the wire gives to the mail actions, errors and message types that the client
/// tells apart.
#[derive(Clone, Copy, Debug, PartialEq, Eq, Structural)]
pub struct MailCodes {
    pub send: u32,
    pub money_taken: u32,
    pub item_taken: u32,
    pub ok: u32,
    pub equip_error: u32,
    pub auction: u32,
}

/// One row of the inbox, as far as the client decides by it.
#[derive(Clone, Copy, Debug, PartialEq, Eq, Structural)]
pub struct MailListEntry {
    pub message_id: u32,
    pub message_type: u32,
    pub money: u32,
    pub item: Option<u32>,
    pub item_text_id: u32,
    pub checked: u32,
    pub expire_days: Single,
}

/// The answer to a letter the player sent: whether it went, and the error to show if not.
#[derive(Clone, Copy, Debug, PartialEq, Eq, Structural)]
pub struct MailSendAck {
    pub ok: bool,
    pub refusal: Option<u32>,
}

/// A line for the inventory-error surface.
#[derive(Clone, Copy, Debug, PartialEq, Eq, Structural)]
pub struct EquipError {
    pub reason: u8,
    pub required_level: Option<u32>,
    pub bag_slot: u8,
}

/// What the mailbox asks of the server.
#[derive(Clone, Copy, Debug, PartialEq, Eq, Structural)]
pub enum ClientCommand {
    MailDelete { mailbox: u64, mail_id: u32 },
    GetMailList { mailbox: u64 },
}

/// What the arrival countdown is told.
#[derive(Clone, Copy, Debug, PartialEq, Eq, Structural)]
pub enum PendingCall {
    ReceivedMail { seconds: Single, busy: bool },
    QueryReply { seconds: Single },
}

/// The mailbox session: the open mailbox, its rows, the letter bodies fetched and asked for, and
/// what waits for the window to show.
pub struct MailOpen {
    pub mailbox: Option<u64>,
    pub mails: Vec<MailListEntry>,
    pub bodies: HashMap<u32, String>,
    pub pending_bodies: HashSet<u32>,
    pub send_acks: Vec<MailSendAck>,
    pub close_inbox: Vec<u32>,
    pub errors: Vec<u32>,
}

/// The bag slot that means the player's own array.
pub const OWN_ARRAY: u8 = 255;

/// The `checked` bit of a mail that carries the money a cash-on-delivery taker paid.
pub const CHECKED_COD_PAYMENT: u32 = 8;

/// A row whose timer ran out.
pub open spec fn expired(entry: MailListEntry) -> bool {
    entry.expire_days.at_most(Single { bits: ZERO_BITS })
}

/// The rows of `mails` whose timer still runs, in order.
pub open spec fn unexpired(mails: Seq<MailListEntry>) -> Seq<MailListEntry> {
    mails.filter(|e: MailListEntry| !expired(e))
}

/// The deletions that the expired rows of `mails` send, in order: none without an open mailbox.
pub open spec fn purges(mails: Seq<MailListEntry>, mailbox: Option<u64>) -> Seq<ClientCommand>
    decreases mails.len(),
{
    if mails.len() == 0 {
        Seq::empty()
    } else {
        let before = purges(mails.drop_last(), mailbox);
        let last = mails.last();
        match mailbox {
            Some(m) if expired(last) => before.push(
                ClientCommand::MailDelete { mailbox: m, mail_id: last.message_id },
            ),
            _ => before,
        }
    }
}

/// The session with its rows replaced.
pub open spec fn only_mails_change(before: MailOpen, after: MailOpen) -> bool {
    &&& after.mailbox == before.mailbox
    &&& after.bodies == before.bodies
    &&& after.pending_bodies == before.pending_bodies
    &&& after.send_acks@ == before.send_acks@
    &&& after.close_inbox@ == before.close_inbox@
    &&& after.errors@ == before.errors@
}

/// A fresh inbox list: the rows replace the session's, without the expired ones, each of which is
/// deleted on the server while a mailbox is open.
pub fn mail_list(mails: Vec<MailListEntry>, mail: &mut MailOpen, commands: &mut Vec<ClientCommand>)
    ensures
        final(mail).mails@ == unexpired(mails@),
        only_mails_change(*old(mail), *final(mail)),
        final(commands)@ == old(commands)@ + purges(mails@, old(mail).mailbox),
{
    let mut kept: Vec<MailListEntry> = Vec::new();
    let mut i: usize = 0;
    let mailbox = mail.mailbox;
    let zero = Single { bits: ZERO_BITS };
    assert(mails@.take(0) =~= Seq::empty());
    assert(commands@ =~= old(commands)@ + purges(mails@.take(0), mailbox));
    while i < mails.len()
        invariant
            i <= mails@.len(),
            zero == (Single { bits: ZERO_BITS }),
            kept@ == unexpired(mails@.take(i as int)),
            commands@ == old(commands)@ + purges(mails@.take(i as int), mailbox),
        decreases mails@.len() - i,
    {
        let entry: MailListEntry = mails[i];
        proof {
            let now = mails@.take(i as int + 1);
            assert(now.drop_last() =~= mails@.take(i as int));
            assert(now.last() == entry);
            reveal_with_fuel(Seq::filter, 2);
        }
        if entry.expire_days.is_at_most(zero) {
            if let Some(m) = mailbox {
                commands.push(ClientCommand::MailDelete { mailbox: m, mail_id: entry.message_id });
            }
        } else {
            kept.push(entry);
        }
        assert(commands@ =~= old(commands)@ + purges(mails@.take(i as int + 1), mailbox));
        i += 1;
    }
    assert(mails@.take(i as int) =~= mails@);
    mail.mails = kept;
}

/// Whether taking `action` off `entry`, whose money or item is gone already, leaves an empty
/// mail: a money take empties a cash-on-delivery payment and an auction notice without an item;
/// an item take empties, once the money is gone, an auction notice and a mail without a letter.
pub open spec fn empties(entry: MailListEntry, action: u32, codes: MailCodes) -> bool {
    let auction = entry.message_type == codes.auction;
    if action == codes.money_taken {
        entry.checked & CHECKED_COD_PAYMENT != 0 || (auction && entry.item is None)
    } else if action == codes.item_taken {
        entry.money == 0 && (auction || entry.item_text_id == 0)
    } else {
        false
    }
}

/// Decides whether a take has left `entry` empty.
pub fn take_empties(entry: &MailListEntry, action: u32, codes: &MailCodes) -> (r: bool)
    ensures
        r == empties(*entry, action, *codes),
{
    let auction = entry.message_type == codes.auction;
    if action == codes.money_taken {
        entry.checked & CHECKED_COD_PAYMENT != 0 || (auction && entry.item.is_none())
    } else if action == codes.item_taken {
        entry.money == 0 && (auction || entry.item_text_id == 0)
    } else {
        false
    }
}

/// `mails` holds its first row of id `mail_id` at `at`.
pub open spec fn first_row(mails: Seq<MailListEntry>, mail_id: u32, at: int) -> bool {
    &&& 0 <= at < mails.len()
    &&& mails[at].message_id == mail_id
    &&& forall|k: int| 0 <= k < at ==> (#[trigger] mails[k]).message_id != mail_id
}

/// No row of `mails` has the id `mail_id`.
pub open spec fn no_row(mails: Seq<MailListEntry>, mail_id: u32) -> bool {
    forall|k: int| 0 <= k < mails.len() ==> (#[trigger] mails[k]).message_id != mail_id
}

/// Finds the first row of id `mail_id`.
pub fn row_of(mails: &Vec<MailListEntry>, mail_id: u32) -> (r: Option<usize>)
    ensures
        match r {
            Some(at) => first_row(mails@, mail_id, at as int),
            None => no_row(mails@, mail_id),
        },
{
    let mut i: usize = 0;
    while i < mails.len()
        invariant
            i <= mails@.len(),
            forall|k: int| 0 <= k < i ==> (#[trigger] mails@[k]).message_id != mail_id,
        decreases mails@.len() - i,
    {
        if mails[i].message_id == mail_id {
            return Some(i);
        }
        i += 1;
    }
    None
}

/// `entry` with what `action` took gone from it.
pub open spec fn taken_from(entry: MailListEntry, action: u32, codes: MailCodes) -> MailListEntry {
    if action == codes.money_taken {
        MailListEntry { money: 0, ..entry }
    } else if action == codes.item_taken {
        MailListEntry { item: None, ..entry }
    } else {
        entry
    }
}

/// The inventory-error line of a mail answer: the low byte of its code, on the player's own array.
pub open spec fn equip_line(equip_error: Option<u32>) -> EquipError {
    let code = match equip_error {
        Some(code) => code,
        None => 0u32,
    };
    EquipError { reason: (code % 256) as u8, required_level: None, bag_slot: OWN_ARRAY }
}

/// Makes the inventory-error line of a mail answer.
pub fn make_equip_line(equip_error: Option<u32>) -> (r: EquipError)
    ensures
        r == equip_line(equip_error),
{
    let code: u32 = match equip_error {
        Some(code) => code,
        None => 0,
    };
    EquipError { reason: (code % 256) as u8, required_level: None, bag_slot: OWN_ARRAY }
}

/// What the answer to a sent letter leaves: an acknowledgement, which carries the error unless
/// the letter went or the error is an inventory one.
pub open spec fn send_ack(error: u32, codes: MailCodes) -> MailSendAck {
    MailSendAck {
        ok: error == codes.ok,
        refusal: if error != codes.ok && error != codes.equip_error { Some(error) } else { None },
    }
}

/// The rows after a successful answer to `action` on the mail `mail_id`: the row's money or item
/// is gone, and an emptied row goes whole.
pub open spec fn rows_after(
    mails: Seq<MailListEntry>,
    at: int,
    action: u32,
    codes: MailCodes,
) -> Seq<MailListEntry> {
    let row = taken_from(mails[at], action, codes);
    if empties(row, action, codes) {
        mails.remove(at)
    } else {
        mails.update(at, row)
    }
}

/// What the mailbox asks after a successful answer: the deletion of an emptied mail, then a fresh
/// list; nothing without an open mailbox.
pub open spec fn asks_after(
    emptied: bool,
    mail_id: u32,
    mailbox: Option<u64>,
) -> Seq<ClientCommand> {
    match mailbox {
        None => Seq::empty(),
        Some(m) => if emptied {
            seq![
                ClientCommand::MailDelete { mailbox: m, mail_id },
                ClientCommand::GetMailList { mailbox: m },
            ]
        } else {
            seq![ClientCommand::GetMailList { mailbox: m }]
        },
    }
}

/// What an answer to a take, a return or a deletion leaves when it succeeded.
pub open spec fn settled(
    before: MailOpen,
    after: MailOpen,
    asked: Seq<ClientCommand>,
    mail_id: u32,
    action: u32,
    codes: MailCodes,
) -> bool {
    &&& after.mailbox == before.mailbox
    &&& after.bodies == before.bodies
    &&& after.pending_bodies == before.pending_bodies
    &&& after.send_acks@ == before.send_acks@
    &&& after.errors@ == before.errors@
    &&& (no_row(before.mails@, mail_id) ==> {
        &&& after.mails@ == before.mails@
        &&& after.close_inbox@ == before.close_inbox@
        &&& asked == asks_after(false, mail_id, before.mailbox)
    })
    &&& forall|at: int| #[trigger]
        first_row(before.mails@, mail_id, at) ==> {
            let row = taken_from(before.mails@[at], action, codes);
            let emptied = empties(row, action, codes);
            &&& after.mails@ == rows_after(before.mails@, at, action, codes)
            &&& after.close_inbox@ == if emptied {
                before.close_inbox@.push((at + 1) as u32)
            } else {
                before.close_inbox@
            }
            &&& asked == asks_after(emptied, mail_id, before.mailbox)
        }
}

/// The session untouched but for one more acknowledgement.
pub open spec fn only_acks_change(before: MailOpen, after: MailOpen) -> bool {
    &&& after.mailbox == before.mailbox
    &&& after.mails@ == before.mails@
    &&& after.bodies == before.bodies
    &&& after.pending_bodies == before.pending_bodies
    &&& after.close_inbox@ == before.close_inbox@
    &&& after.errors@ == before.errors@
}

/// The session untouched but for one more error line.
pub open spec fn only_errors_change(before: MailOpen, after: MailOpen) -> bool {
    &&& after.mailbox == before.mailbox
    &&& after.mails@ == before.mails@
    &&& after.bodies == before.bodies
    &&& after.pending_bodies == before.pending_bodies
    &&& after.close_inbox@ == before.close_inbox@
    &&& after.send_acks@ == before.send_acks@
}

/// A take, a return or a deletion that succeeded: what was taken leaves the local row, an emptied
/// mail is deleted and its window closed (rows count from one), and the inbox is asked again.
pub fn settle_mail(
    mail_id: u32,
    action: u32,
    codes: &MailCodes,
    mail: &mut MailOpen,
    commands: &mut Vec<ClientCommand>,
)
    requires
        old(mail).mails@.len() <= u32::MAX,
    ensures
        final(commands)@ == old(commands)@ + asks_after(
            exists|at: int|
                first_row(old(mail).mails@, mail_id, at) && empties(
                    taken_from(old(mail).mails@[at], action, *codes),
                    action,
                    *codes,
                ),
            mail_id,
            old(mail).mailbox,
        ),
        settled(
            *old(mail),
            *final(mail),
            final(commands)@.skip(old(commands)@.len() as int),
            mail_id,
            action,
            *codes,
        ),
{
    let ghost mut emptied = false;
    if let Some(pos) = row_of(&mail.mails, mail_id) {
        let ghost before = mail.mails@;
        assert(first_row(before, mail_id, pos as int));
        assert forall|at: int| #[trigger] first_row(before, mail_id, at) implies at == pos by {
            if at < pos {
                assert(before[at].message_id != mail_id);
            } else if pos < at {
                assert(before[pos as int].message_id != mail_id);
            }
        }
        let mut row: MailListEntry = mail.mails[pos];
        if action == codes.money_taken {
            row.money = 0;
        } else if action == codes.item_taken {
            row.item = None;
        }
        mail.mails.set(pos, row);
        if take_empties(&row, action, codes) {
            if let Some(mailbox) = mail.mailbox {
                commands.push(ClientCommand::MailDelete { mailbox, mail_id });
            }
            mail.close_inbox.push(pos as u32 + 1);
            let _gone = mail.mails.remove(pos);
            assert(mail.mails@ =~= before.remove(pos as int));
            proof {
                emptied = true;
            }
        }
    }
    if let Some(mailbox) = mail.mailbox {
        commands.push(ClientCommand::GetMailList { mailbox });
    }
    proof {
        let asked = asks_after(emptied, mail_id, mail.mailbox);
        assert(commands@ =~= old(commands)@ + asked);
        assert((old(commands)@ + asked).skip(old(commands)@.len() as int) =~= asked);
    }
}

/// The server's answer to a mail action. The answer to a sent letter is acknowledged, with a
/// line on the inventory-error surface where that was the error. A successful take, return or
/// deletion is settled; an inventory error goes to its own surface; any other error is shown.
pub fn send_mail_result(
    mail_id: u32,
    action: u32,
    error: u32,
    equip_error: Option<u32>,
    codes: &MailCodes,
    mail: &mut MailOpen,
    commands: &mut Vec<ClientCommand>,
    equip_errors: &mut Vec<EquipError>,
)
    requires
        old(mail).mails@.len() <= u32::MAX,
    ensures
        action == codes.send ==> {
            &&& only_acks_change(*old(mail), *final(mail))
            &&& final(mail).send_acks@ == old(mail).send_acks@.push(send_ack(error, *codes))
            &&& final(commands)@ == old(commands)@
        },
        action != codes.send && error == codes.ok ==> {
            &&& final(commands)@.take(old(commands)@.len() as int) == old(commands)@
            &&& final(commands)@.len() >= old(commands)@.len()
            &&& settled(
                *old(mail),
                *final(mail),
                final(commands)@.skip(old(commands)@.len() as int),
                mail_id,
                action,
                *codes,
            )
        },
        action != codes.send && error != codes.ok ==> {
            &&& only_errors_change(*old(mail), *final(mail))
            &&& final(mail).errors@ == if error == codes.equip_error {
                old(mail).errors@
            } else {
                old(mail).errors@.push(error)
            }
            &&& final(commands)@ == old(commands)@
        },
        final(equip_errors)@ == if error == codes.equip_error && (action == codes.send || error
            != codes.ok) {
            old(equip_errors)@.push(equip_line(equip_error))
        } else {
            old(equip_errors)@
        },
{
    if action == codes.send {
        if error == codes.equip_error {
            equip_errors.push(make_equip_line(equip_error));
        }
        let refusal: Option<u32> = if error != codes.ok && error != codes.equip_error {
            Some(error)
        } else {
            None
        };
        mail.send_acks.push(MailSendAck { ok: error == codes.ok, refusal });
        return;
    }
    if error == codes.ok {
        settle_mail(mail_id, action, codes, mail, commands);
        assert(commands@.take(old(commands)@.len() as int) =~= old(commands)@);
    } else if error == codes.equip_error {
        equip_errors.push(make_equip_line(equip_error));
    } else {
        mail.errors.push(error);
    }
}

/// A letter body arrived: it lands in the cache, and its question is no longer open.
pub fn mail_item_text(text_id: u32, text: String, mail: &mut MailOpen)
    ensures
        final(mail).bodies@ == old(mail).bodies@.insert(text_id, text),
        final(mail).pending_bodies@ == old(mail).pending_bodies@.remove(text_id),
        final(mail).mailbox == old(mail).mailbox,
        final(mail).mails@ == old(mail).mails@,
        final(mail).send_acks@ == old(mail).send_acks@,
        final(mail).close_inbox@ == old(mail).close_inbox@,
        final(mail).errors@ == old(mail).errors@,
{
    let _former = mail.bodies.insert(text_id, text);
    let _asked = mail.pending_bodies.remove(&text_id);
}

/// Mail just arrived: the countdown takes the delay, busy while a mailbox is open, and an open
/// mailbox asks for its list again.
pub fn received_mail(seconds: Single, mail: &MailOpen, commands: &mut Vec<ClientCommand>) -> (r:
    PendingCall)
    ensures
        r == (PendingCall::ReceivedMail { seconds, busy: mail.mailbox is Some }),
        final(commands)@ == old(commands)@ + asks_after(false, 0, mail.mailbox),
{
    let busy = mail.mailbox.is_some();
    if let Some(mailbox) = mail.mailbox {
        commands.push(ClientCommand::GetMailList { mailbox });
    }
    assert(commands@ =~= old(commands)@ + asks_after(false, 0, mail.mailbox));
    PendingCall::ReceivedMail { seconds, busy }
}

/// The server's reply about the next mail: the countdown takes its number as it stands.
pub fn next_mail_time(seconds: Single) -> (r: PendingCall)
    ensures
        r == (PendingCall::QueryReply { seconds }),
{
    PendingCall::QueryReply { seconds }
}

/// An inbox list never shows an expired row, and every other row survives in its order.
pub proof fn no_expired_row_is_shown(mails: Seq<MailListEntry>, k: int)
    requires
        0 <= k < mails.len(),
    ensures
        expired(mails[k]) ==> !unexpired(mails).contains(mails[k]),
        !expired(mails[k]) ==> unexpired(mails).contains(mails[k]),
{
    broadcast use vstd::seq_lib::group_filter_ensures;
    let shown = unexpired(mails);
    if expired(mails[k]) && shown.contains(mails[k]) {
        let j = choose|j: int| 0 <= j < shown.len() && shown[j] == mails[k];
        assert(!expired(shown[j]));
    }
}

/// A mailbox that is closed sends nothing, whatever the answer.
pub proof fn a_closed_mailbox_asks_nothing(mails: Seq<MailListEntry>, emptied: bool, mail_id: u32)
    ensures
        purges(mails, None) == Seq::<ClientCommand>::empty(),
        asks_after(emptied, mail_id, None) == Seq::<ClientCommand>::empty(),
    decreases mails.len(),
{
    if mails.len() > 0 {
        a_closed_mailbox_asks_nothing(mails.drop_last(), emptied, mail_id);
    }
}

/// A take empties a mail the same way when it is told twice: taking what is gone changes nothing.
pub proof fn taking_twice_is_taking_once(entry: MailListEntry, action: u32, codes: MailCodes)
    ensures
        taken_from(taken_from(entry, action, codes), action, codes) == taken_from(
            entry,
            action,
            codes,
        ),
        empties(taken_from(taken_from(entry, action, codes), action, codes), action, codes)
            == empties(taken_from(entry, action, codes), action, codes),
{
}

} // verus!
