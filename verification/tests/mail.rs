use benilla_app::net::mail::{
    mail_item_text, mail_list, next_mail_time, received_mail, send_mail_result, take_empties,
    ClientCommand, EquipError, MailCodes, MailListEntry, MailOpen, MailSendAck, PendingCall,
};
use benilla_app::single::Single;
use std::collections::{HashMap, HashSet};

const CODES: MailCodes = MailCodes {
    send: 0,
    money_taken: 1,
    item_taken: 2,
    ok: 0,
    equip_error: 1,
    auction: 2,
};

fn row(message_id: u32, days: f32) -> MailListEntry {
    MailListEntry {
        message_id,
        message_type: 0,
        money: 0,
        item: None,
        item_text_id: 7,
        checked: 0,
        expire_days: Single::from_bits(days.to_bits()),
    }
}

fn session(mailbox: Option<u64>, mails: Vec<MailListEntry>) -> MailOpen {
    MailOpen {
        mailbox,
        mails,
        bodies: HashMap::new(),
        pending_bodies: HashSet::new(),
        send_acks: Vec::new(),
        close_inbox: Vec::new(),
        errors: Vec::new(),
    }
}

#[test]
fn an_expired_row_is_dropped_and_deleted_on_the_server() {
    let mut mail = session(Some(9), vec![row(99, 1.0)]);
    let mut commands = Vec::new();
    let rows = vec![row(1, 3.0), row(2, 0.0), row(3, -0.5), row(4, f32::NAN)];
    mail_list(rows, &mut mail, &mut commands);
    let ids: Vec<u32> = mail.mails.iter().map(|m| m.message_id).collect();
    assert_eq!(ids, vec![1, 4]);
    assert_eq!(
        commands,
        vec![
            ClientCommand::MailDelete { mailbox: 9, mail_id: 2 },
            ClientCommand::MailDelete { mailbox: 9, mail_id: 3 },
        ]
    );
}

#[test]
fn without_a_mailbox_an_expired_row_is_only_dropped() {
    let mut mail = session(None, Vec::new());
    let mut commands = Vec::new();
    mail_list(vec![row(2, 0.0)], &mut mail, &mut commands);
    assert!(mail.mails.is_empty());
    assert!(commands.is_empty());
}

#[test]
fn a_money_take_empties_a_payment_and_an_itemless_auction_notice() {
    let mut payment = row(1, 1.0);
    payment.checked = 8;
    assert!(take_empties(&payment, CODES.money_taken, &CODES));
    let mut notice = row(1, 1.0);
    notice.message_type = CODES.auction;
    assert!(take_empties(&notice, CODES.money_taken, &CODES));
    notice.item = Some(5);
    assert!(!take_empties(&notice, CODES.money_taken, &CODES));
    assert!(!take_empties(&row(1, 1.0), CODES.money_taken, &CODES));
}

#[test]
fn an_item_take_empties_a_mail_without_money_or_letter() {
    let mut mail = row(1, 1.0);
    assert!(!take_empties(&mail, CODES.item_taken, &CODES));
    mail.item_text_id = 0;
    assert!(take_empties(&mail, CODES.item_taken, &CODES));
    mail.money = 1;
    assert!(!take_empties(&mail, CODES.item_taken, &CODES));
    assert!(!take_empties(&mail, 77, &CODES));
}

#[test]
fn an_emptied_mail_is_deleted_closed_and_the_inbox_asked_again() {
    let mut payment = row(5, 1.0);
    payment.checked = 8;
    payment.money = 300;
    let mut mail = session(Some(9), vec![row(4, 1.0), payment, row(6, 1.0)]);
    let mut commands = Vec::new();
    let mut equip = Vec::new();
    send_mail_result(5, 1, 0, None, &CODES, &mut mail, &mut commands, &mut equip);
    let ids: Vec<u32> = mail.mails.iter().map(|m| m.message_id).collect();
    assert_eq!(ids, vec![4, 6]);
    assert_eq!(mail.close_inbox, vec![2]);
    assert_eq!(
        commands,
        vec![
            ClientCommand::MailDelete { mailbox: 9, mail_id: 5 },
            ClientCommand::GetMailList { mailbox: 9 },
        ]
    );
}

#[test]
fn a_plain_letter_stays_after_its_money_is_taken() {
    let mut letter = row(5, 1.0);
    letter.money = 300;
    let mut mail = session(Some(9), vec![letter]);
    let mut commands = Vec::new();
    let mut equip = Vec::new();
    send_mail_result(5, 1, 0, None, &CODES, &mut mail, &mut commands, &mut equip);
    assert_eq!(mail.mails[0].money, 0);
    assert!(mail.close_inbox.is_empty());
    assert_eq!(commands, vec![ClientCommand::GetMailList { mailbox: 9 }]);
}

#[test]
fn errors_go_to_their_own_surfaces() {
    let mut mail = session(Some(9), Vec::new());
    let mut commands = Vec::new();
    let mut equip = Vec::new();
    send_mail_result(5, 1, 1, Some(0x1_2c), &CODES, &mut mail, &mut commands, &mut equip);
    assert_eq!(
        equip,
        vec![EquipError { reason: 0x2c, required_level: None, bag_slot: 255 }]
    );
    send_mail_result(5, 1, 6, None, &CODES, &mut mail, &mut commands, &mut equip);
    assert_eq!(mail.errors, vec![6]);
    send_mail_result(0, 0, 0, None, &CODES, &mut mail, &mut commands, &mut equip);
    send_mail_result(0, 0, 6, None, &CODES, &mut mail, &mut commands, &mut equip);
    send_mail_result(0, 0, 1, None, &CODES, &mut mail, &mut commands, &mut equip);
    assert_eq!(
        mail.send_acks,
        vec![
            MailSendAck { ok: true, refusal: None },
            MailSendAck { ok: false, refusal: Some(6) },
            MailSendAck { ok: false, refusal: None },
        ]
    );
    assert_eq!(equip.len(), 2);
    assert_eq!(equip[1].reason, 0);
    assert!(commands.is_empty());
}

#[test]
fn a_letter_body_lands_once_asked() {
    let mut mail = session(None, Vec::new());
    mail.pending_bodies.insert(3);
    mail.pending_bodies.insert(4);
    mail_item_text(3, String::from("hello"), &mut mail);
    assert_eq!(mail.bodies.get(&3).map(String::as_str), Some("hello"));
    assert!(!mail.pending_bodies.contains(&3));
    assert!(mail.pending_bodies.contains(&4));
}

#[test]
fn arriving_mail_is_busy_while_a_mailbox_is_open() {
    let seconds = Single::from_bits(2.5f32.to_bits());
    let mut commands = Vec::new();
    let open = session(Some(9), Vec::new());
    assert_eq!(
        received_mail(seconds, &open, &mut commands),
        PendingCall::ReceivedMail { seconds, busy: true }
    );
    assert_eq!(commands, vec![ClientCommand::GetMailList { mailbox: 9 }]);
    let closed = session(None, Vec::new());
    assert_eq!(
        received_mail(seconds, &closed, &mut commands),
        PendingCall::ReceivedMail { seconds, busy: false }
    );
    assert_eq!(commands.len(), 1);
    assert_eq!(next_mail_time(seconds), PendingCall::QueryReply { seconds });
}
