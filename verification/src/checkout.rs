//! Paying for a new identity: what state a checkout is in, what the user is told, and how
//! long it is waited for.
use vstd::prelude::*;

use crate::cert_server::{CreateDomainResponse, Error};
use crate::text::{lines, lines_of, same, trim_end, trim_end_of, views};

verus! {

#[derive(Debug, Clone, Copy, PartialEq, Eq, Structural)]
pub enum CheckoutState {
    Pending,
    Completed,
    Expired,
    Cancelled,
    Failed,
}

/// What the status of an invoice says about the checkout.
pub open spec fn invoice_state(status: Seq<char>) -> CheckoutState {
    if status == "paid"@ {
        CheckoutState::Completed
    } else if status == "expired"@ {
        CheckoutState::Expired
    } else if status == "cancelled"@ || status == "canceled"@ {
        CheckoutState::Cancelled
    } else if status == "pending"@ || status == "open"@ || status == "unpaid"@ || status
        == "processing"@ {
        CheckoutState::Pending
    } else {
        CheckoutState::Failed
    }
}

/// What the status of a reservation says about the checkout.
pub open spec fn reservation_state(status: Seq<char>) -> CheckoutState {
    if status == "expired"@ {
        CheckoutState::Expired
    } else if status == "cancelled"@ || status == "canceled"@ {
        CheckoutState::Cancelled
    } else if status == "pending"@ || status == "reserved"@ {
        CheckoutState::Pending
    } else {
        CheckoutState::Failed
    }
}

/// The state of a checkout: completed where the server says so, otherwise what the invoice
/// says, otherwise what the reservation says, otherwise what the next action says.
pub open spec fn checkout_state(response: CreateDomainResponse) -> CheckoutState {
    if response.next_action@ == "completed"@ {
        CheckoutState::Completed
    } else {
        match (response.invoice, response.reservation) {
            (Some(invoice), _) => invoice_state(invoice.status@),
            (None, Some(reservation)) => reservation_state(reservation.status@),
            (None, None) => if response.next_action@ == "payment"@ || response.next_action@
                == "pending"@ {
                CheckoutState::Pending
            } else {
                CheckoutState::Failed
            },
        }
    }
}

/// The state of a checkout.
pub fn classify_checkout(response: &CreateDomainResponse) -> (r: CheckoutState)
    ensures
        r == checkout_state(*response),
{
    if same(&response.next_action, "completed") {
        return CheckoutState::Completed;
    }
    if let Some(invoice) = &response.invoice {
        let status = invoice.status.as_str();
        return if same(status, "paid") {
            CheckoutState::Completed
        } else if same(status, "expired") {
            CheckoutState::Expired
        } else if same(status, "cancelled") || same(status, "canceled") {
            CheckoutState::Cancelled
        } else if same(status, "pending") || same(status, "open") || same(status, "unpaid")
            || same(status, "processing") {
            CheckoutState::Pending
        } else {
            CheckoutState::Failed
        };
    }
    if let Some(reservation) = &response.reservation {
        let status = reservation.status.as_str();
        return if same(status, "expired") {
            CheckoutState::Expired
        } else if same(status, "cancelled") || same(status, "canceled") {
            CheckoutState::Cancelled
        } else if same(status, "pending") || same(status, "reserved") {
            CheckoutState::Pending
        } else {
            CheckoutState::Failed
        };
    }
    if same(&response.next_action, "payment") || same(&response.next_action, "pending") {
        CheckoutState::Pending
    } else {
        CheckoutState::Failed
    }
}

/// The outside error of encoding a QR code.
#[verifier::external_type_specification]
#[verifier::external_body]
pub struct ExQrError(qrcode::types::QrError);

/// The QR code of a text in block characters, two rows of modules in one row of characters;
/// `None` where the text does not fit a QR code.
pub uninterp spec fn qr_text(text: Seq<char>) -> Option<Seq<char>>;

/// Calls `qrcode::QrCode::new` on the bytes of a text and renders the code with
/// `unicode::Dense1x2`, with a quiet zone and one character for each module across. The name
/// `qr_text` stands for the result.
#[verifier::external_body]
pub fn render_terminal_qr(url: &str) -> (r: Result<String, qrcode::types::QrError>)
    ensures
        match r {
            Ok(text) => qr_text(url@) == Some(text@),
            Err(_) => qr_text(url@) is None,
        },
{
    let code = qrcode::QrCode::new(url.as_bytes())?;
    Ok(code
        .render::<qrcode::render::unicode::Dense1x2>()
        .quiet_zone(true)
        .module_dimensions(1, 1)
        .build())
}

/// Lines, each indented by four spaces and ended.
pub open spec fn indented(rows: Seq<Seq<char>>) -> Seq<char>
    decreases rows.len(),
{
    if rows.len() == 0 {
        Seq::<char>::empty()
    } else {
        indented(rows.drop_last()) + "    "@ + rows.last() + "\n"@
    }
}

/// What the user reads: a notice, the QR code, and the link.
pub open spec fn payment_block(qr: Seq<char>, url: Seq<char>) -> Seq<char> {
    "[!] Please complete your payment within 15 minutes.\n    Open the link, or scan the QR code below\n\n"@
        + indented(lines_of(trim_end_of(qr))) + "\n    Link: "@ + url
}

/// What the user reads where there is no QR code.
pub open spec fn payment_link_block(url: Seq<char>) -> Seq<char> {
    "[!] Please complete your payment within 15 minutes.\n    Open the link below\n\n    Link: "@
        + url
}

fn indent_rows(rows: &Vec<String>) -> (r: String)
    ensures
        r@ == indented(views(rows@)),
{
    let ghost all = views(rows@);
    let mut r = String::new();
    let mut i: usize = 0;
    while i < rows.len()
        invariant
            i <= rows@.len(),
            all == views(rows@),
            r@ == indented(all.take(i as int)),
        decreases rows@.len() - i,
    {
        r.append("    ");
        r.append(&rows[i]);
        r.append("\n");
        assert(all.take(i + 1).drop_last() == all.take(i as int));
        assert(all.take(i + 1).last() == rows@[i as int]@);
        i += 1;
    }
    assert(all.take(all.len() as int) == all);
    r
}

/// The block around a rendered QR code.
pub fn payment_block_with(qr: &str, url: &str) -> (r: String)
    ensures
        r@ == payment_block(qr@, url@),
{
    let rows = lines(trim_end(qr));
    let mut block = "[!] Please complete your payment within 15 minutes.\n    Open the link, or scan the QR code below\n\n".to_owned();
    block.append(&indent_rows(&rows));
    block.append("\n    Link: ");
    block.append(url);
    block
}

/// The payment instructions with a QR code, where the link fits one.
pub fn payment_instruction_block(url: &str) -> (r: Option<String>)
    ensures
        match r {
            Some(block) => qr_text(url@) is Some && block@ == payment_block(qr_text(url@)->0, url@),
            None => qr_text(url@) is None,
        },
{
    match render_terminal_qr(url) {
        Ok(qr) => Some(payment_block_with(&qr, url)),
        Err(_) => None,
    }
}

pub fn payment_link_only_instruction_block(url: &str) -> (r: String)
    ensures
        r@ == payment_link_block(url@),
{
    let mut block = "[!] Please complete your payment within 15 minutes.\n    Open the link below\n\n    Link: ".to_owned();
    block.append(url);
    block
}

/// The payment instructions, with a QR code where the link fits one.
pub fn payment_instruction_block_or_link(url: &str) -> (r: String)
    ensures
        r@ == (match qr_text(url@) {
            Some(qr) => payment_block(qr, url@),
            None => payment_link_block(url@),
        }),
{
    match payment_instruction_block(url) {
        Some(block) => block,
        None => payment_link_only_instruction_block(url),
    }
}

/// The payment instructions that a reply calls for; the program prints them.
pub fn print_payment_instructions(response: &CreateDomainResponse) -> (r: Option<String>)
    ensures
        match response.payment_entry {
            Some(entry) => r matches Some(block) && block@ == (match qr_text(entry.url@) {
                Some(qr) => payment_block(qr, entry.url@),
                None => payment_link_block(entry.url@),
            }),
            None => r is None,
        },
{
    match &response.payment_entry {
        Some(entry) => Some(payment_instruction_block_or_link(&entry.url)),
        None => None,
    }
}

/// How long a checkout is waited for: until it expires, at most fifteen minutes.
pub fn checkout_wait_duration(expires_at: i64, now: i64) -> (seconds: u64)
    ensures
        expires_at <= now ==> seconds == 0,
        now < expires_at <= now + 900 ==> seconds == expires_at - now,
        expires_at > now + 900 ==> seconds == 900,
{
    if expires_at <= now {
        0
    } else {
        let left: i128 = expires_at as i128 - now as i128;
        if left > 900 {
            900
        } else {
            left as u64
        }
    }
}

/// The deadline of a checkout that starts now, where the server names none.
pub fn checkout_deadline(now: i64) -> (r: i64)
    ensures
        r == (if now + 900 > i64::MAX {
            i64::MAX as int
        } else {
            now + 900
        }),
{
    if now > i64::MAX - 900 {
        i64::MAX
    } else {
        now + 900
    }
}

/// What happened while a checkout was waited for.
#[derive(Debug)]
pub enum CheckoutEvent {
    Reply(Result<CreateDomainResponse, Error>),
    Slept,
    TimedOut,
}

/// What to do next in a checkout.
#[derive(Debug)]
pub enum CheckoutAction {
    Poll,
    Sleep { seconds: u64 },
    Finish(Result<CreateDomainResponse, Error>),
}

/// How the wait for a checkout begins: it fails at once where no time is left.
pub fn start_checkout_wait(expires_at: i64, now: i64) -> (r: CheckoutAction)
    ensures
        expires_at <= now ==> (r matches CheckoutAction::Finish(Err(Error::Whatever { message }))
            && message@ == "checkout expired before payment was completed"@),
        expires_at > now ==> r is Poll,
{
    if checkout_wait_duration(expires_at, now) == 0 {
        CheckoutAction::Finish(Err(checkout_expired_error()))
    } else {
        CheckoutAction::Poll
    }
}

/// The message of a checkout that ended without an identity.
pub open spec fn checkout_failure(state: CheckoutState) -> Seq<char> {
    match state {
        CheckoutState::Cancelled => "checkout was cancelled before payment was completed"@,
        CheckoutState::Failed => "checkout failed or returned an unsupported terminal state"@,
        _ => "checkout expired before payment was completed"@,
    }
}

/// What follows on an event: a pending checkout is asked about again three seconds later,
/// every other one ends the wait.
pub fn next_checkout_action(event: CheckoutEvent) -> (r: CheckoutAction)
    ensures
        match event {
            CheckoutEvent::Slept => r is Poll,
            CheckoutEvent::TimedOut => r matches CheckoutAction::Finish(
                Err(Error::Whatever { message }),
            ) && message@ == checkout_failure(CheckoutState::Expired),
            CheckoutEvent::Reply(Err(error)) => r == CheckoutAction::Finish(Err(error)),
            CheckoutEvent::Reply(Ok(response)) => match checkout_state(response) {
                CheckoutState::Completed => r == CheckoutAction::Finish(
                    Ok::<CreateDomainResponse, Error>(response),
                ),
                CheckoutState::Pending => r == (CheckoutAction::Sleep { seconds: 3 }),
                state => r matches CheckoutAction::Finish(Err(Error::Whatever { message }))
                    && message@ == checkout_failure(state),
            },
        },
{
    match event {
        CheckoutEvent::Slept => CheckoutAction::Poll,
        CheckoutEvent::TimedOut => CheckoutAction::Finish(Err(checkout_expired_error())),
        CheckoutEvent::Reply(Err(error)) => CheckoutAction::Finish(Err(error)),
        CheckoutEvent::Reply(Ok(response)) => match classify_checkout(&response) {
            CheckoutState::Completed => CheckoutAction::Finish(Ok(response)),
            CheckoutState::Pending => CheckoutAction::Sleep { seconds: 3 },
            CheckoutState::Expired => CheckoutAction::Finish(Err(checkout_expired_error())),
            CheckoutState::Cancelled => CheckoutAction::Finish(
                Err(
                    Error::Whatever {
                        message: "checkout was cancelled before payment was completed".to_owned(),
                    },
                ),
            ),
            CheckoutState::Failed => CheckoutAction::Finish(
                Err(
                    Error::Whatever {
                        message: "checkout failed or returned an unsupported terminal state".to_owned(),
                    },
                ),
            ),
        },
    }
}

pub fn checkout_expired_error() -> (r: Error)
    ensures
        r matches Error::Whatever { message } && message@
            == "checkout expired before payment was completed"@,
{
    Error::Whatever { message: "checkout expired before payment was completed".to_owned() }
}

/// A checkout is completed only where the reply says so or its invoice is paid; it is never
/// taken for completed where an invoice says otherwise.
pub proof fn checkouts_are_completed_by_payment(response: CreateDomainResponse)
    ensures
        checkout_state(response) == CheckoutState::Completed <==> response.next_action@
            == "completed"@ || (response.invoice matches Some(invoice) && invoice.status@
            == "paid"@),
{
    reveal_strlit("paid");
    reveal_strlit("expired");
    reveal_strlit("cancelled");
    reveal_strlit("canceled");
    reveal_strlit("pending");
    reveal_strlit("open");
    reveal_strlit("unpaid");
    reveal_strlit("processing");
    assert("paid"@.len() == 4);
    assert("expired"@.len() == 7);
    assert("cancelled"@.len() == 9);
    assert("canceled"@.len() == 8);
    assert("pending"@.len() == 7);
    assert("open"@.len() == 4);
    assert("unpaid"@.len() == 6);
    assert("processing"@.len() == 10);
    assert("paid"@[0] != "open"@[0]);
    assert("expired"@[0] != "pending"@[0]);
}

/// What an unpaid checkout is taken for: the word of its invoice counts, without one that of its
/// reservation, without both the next action.
pub proof fn unpaid_checkouts_go_by_their_word(response: CreateDomainResponse)
    requires
        response.next_action@ != "completed"@,
    ensures
        ({
            let word = match (response.invoice, response.reservation) {
                (Some(invoice), _) => invoice.status@,
                (None, Some(reservation)) => reservation.status@,
                (None, None) => response.next_action@,
            };
            let listed = response.invoice is Some || response.reservation is Some;
            &&& (checkout_state(response) == CheckoutState::Expired <==> listed && word
                == "expired"@)
            &&& (checkout_state(response) == CheckoutState::Cancelled <==> listed && (word
                == "cancelled"@ || word == "canceled"@))
            &&& (checkout_state(response) == CheckoutState::Pending <==> word == "pending"@ || (
            response.invoice is Some && (word == "open"@ || word == "unpaid"@ || word
                == "processing"@)) || (response.invoice is None && response.reservation is Some
                && word == "reserved"@) || (!listed && word == "payment"@))
        }),
{
    reveal_strlit("paid");
    reveal_strlit("expired");
    reveal_strlit("cancelled");
    reveal_strlit("canceled");
    reveal_strlit("pending");
    reveal_strlit("open");
    reveal_strlit("unpaid");
    reveal_strlit("processing");
    reveal_strlit("reserved");
    reveal_strlit("payment");
    reveal_strlit("completed");
    assert("paid"@.len() == 4);
    assert("expired"@.len() == 7);
    assert("cancelled"@.len() == 9);
    assert("canceled"@.len() == 8);
    assert("pending"@.len() == 7);
    assert("open"@.len() == 4);
    assert("unpaid"@.len() == 6);
    assert("processing"@.len() == 10);
    assert("reserved"@.len() == 8);
    assert("payment"@.len() == 7);
    assert("completed"@.len() == 9);
    assert("paid"@[0] != "open"@[0]);
    assert("expired"@[0] != "pending"@[0]);
    assert("expired"@[0] != "payment"@[0]);
    assert("cancelled"@[1] != "completed"@[1]);
    assert("canceled"@[0] != "reserved"@[0]);
    assert("pending"@[1] != "payment"@[1]);
}

/// Every row of a QR code stands in the block, indented and on a line of its own.
pub proof fn rows_are_indented(rows: Seq<Seq<char>>, row: Seq<char>)
    ensures
        indented(rows.push(row)) == indented(rows) + "    "@ + row + "\n"@,
        indented(Seq::empty()).len() == 0,
{
    assert(rows.push(row).drop_last() =~= rows);
}

/// The instructions end with the link, with a QR code or without.
pub proof fn instructions_end_with_the_link(qr: Seq<char>, url: Seq<char>)
    ensures
        crate::text::ends_with(payment_block(qr, url), url),
        crate::text::ends_with(payment_link_block(url), url),
{
    assert(payment_block(qr, url).skip(payment_block(qr, url).len() - url.len()) =~= url);
    assert(payment_link_block(url).skip(payment_link_block(url).len() - url.len()) =~= url);
}

/// Why a checkout came to nothing is told by its state.
pub proof fn failed_checkouts_say_why(state: CheckoutState)
    ensures
        state == CheckoutState::Cancelled ==> checkout_failure(state)
            == "checkout was cancelled before payment was completed"@,
        state == CheckoutState::Failed ==> checkout_failure(state)
            == "checkout failed or returned an unsupported terminal state"@,
        state == CheckoutState::Expired ==> checkout_failure(state)
            == "checkout expired before payment was completed"@,
{
}

} // verus!
