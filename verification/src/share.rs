//! Sharing a project: invitation links, invitations by email, and the list
//! of people invited.
use vstd::prelude::*;
use vstd::string::*;
use crate::text::{concat, str_eq};

verus! {

/// Address at which an invitation code can be redeemed.
pub fn invite_link(invite_code: &str) -> (link: String)
    ensures
        link@ == "https://doxle.ai/signup?invite="@ + invite_code@,
{
    concat("https://doxle.ai/signup?invite=", invite_code)
}

/// An invitation as the server lists it: its status and address, when present.
pub struct InviteSummary {
    pub status: Option<String>,
    pub email: Option<String>,
}

/// Whether an invitation is still pending and has an address.
pub open spec fn is_pending_with_email(i: InviteSummary) -> bool {
    i.status.deep_view() == Some("pending"@) && i.email is Some
}

/// Addresses of the pending invitations, in order.
pub open spec fn spec_pending_emails(invites: Seq<InviteSummary>) -> Seq<Seq<char>>
    decreases invites.len(),
{
    if invites.len() == 0 {
        Seq::empty()
    } else {
        let rest = spec_pending_emails(invites.drop_last());
        if is_pending_with_email(invites.last()) {
            rest.push(invites.last().email->0@)
        } else {
            rest
        }
    }
}

/// Addresses of the pending invitations, in order.
pub fn pending_invite_emails(invites: &Vec<InviteSummary>) -> (emails: Vec<String>)
    ensures
        emails.deep_view() == spec_pending_emails(invites@),
{
    let mut emails: Vec<String> = Vec::new();
    let mut i: usize = 0;
    while i < invites.len()
        invariant
            i <= invites@.len(),
            emails.deep_view() == spec_pending_emails(invites@.subrange(0, i as int)),
        decreases invites@.len() - i,
    {
        assert(invites@.subrange(0, i + 1).drop_last() =~= invites@.subrange(0, i as int));
        let inv = &invites[i];
        let pending = match &inv.status {
            Some(s) => str_eq(s.as_str(), "pending"),
            None => false,
        };
        if pending {
            if let Some(e) = &inv.email {
                let ghost prev = emails.deep_view();
                emails.push(e.clone());
                assert(emails.deep_view() =~= prev.push(e@));
            }
        }
        i = i + 1;
    }
    assert(invites@.subrange(0, invites@.len() as int) =~= invites@);
    emails
}

/// Pressing "Invite": an empty address is refused with a message.
pub fn check_invite_email(email: &str) -> (r: Result<(), &'static str>)
    ensures
        email@.len() == 0 ==> (r matches Err(m) && m@ == "Please enter an email address"@),
        email@.len() > 0 ==> r is Ok,
{
    if email.unicode_len() == 0 {
        Err("Please enter an email address")
    } else {
        Ok(())
    }
}

/// Whether the "Invite" button is disabled: no address, or a send under way.
pub fn invite_button_disabled(email: &str, sending: bool) -> (d: bool)
    ensures
        d == (email@.len() == 0 || sending),
{
    email.unicode_len() == 0 || sending
}

/// Caption of the "Invite" button.
pub fn invite_button_label(sending: bool) -> (label: &'static str)
    ensures
        sending ==> label@ == "Sending..."@,
        !sending ==> label@ == "Invite"@,
{
    if sending {
        "Sending..."
    } else {
        "Invite"
    }
}

/// Caption of the copy-link button.
pub fn copy_link_label(copied: bool) -> (label: &'static str)
    ensures
        copied ==> label@ == "Copied!"@,
        !copied ==> label@ == "Copy Link"@,
{
    if copied {
        "Copied!"
    } else {
        "Copy Link"
    }
}

/// Message when an invitation could not be sent.
pub fn send_invite_error_message(error: &str) -> (m: String)
    ensures
        m@ == "Failed to send email: "@ + error@,
{
    concat("Failed to send email: ", error)
}

/// The "copy link" button: with no link yet it asks for an invitation code,
/// otherwise it copies the link.
#[derive(Clone, Copy, PartialEq, Eq, Debug, Structural)]
pub enum CopyLinkAction {
    RequestInviteCode,
    CopyLink,
}

/// What the copy-link button does.
pub fn copy_link_action(invite_link: &str) -> (a: CopyLinkAction)
    ensures
        invite_link@.len() == 0 ==> a == CopyLinkAction::RequestInviteCode,
        invite_link@.len() > 0 ==> a == CopyLinkAction::CopyLink,
{
    if invite_link.unicode_len() == 0 {
        CopyLinkAction::RequestInviteCode
    } else {
        CopyLinkAction::CopyLink
    }
}

/// State of the share dialog: the address being typed, the error shown,
/// whether a link was just copied, whether an invitation is being sent or
/// was just sent, and the addresses invited so far.
pub struct ShareDialog {
    pub email: String,
    pub error: String,
    pub copied: bool,
    pub sending_email: bool,
    pub email_sent: bool,
    pub pending_invites: Vec<String>,
}

impl ShareDialog {
    /// A dialog with nothing typed and nobody invited.
    pub fn new() -> (d: Self)
        ensures
            d.email@ == Seq::<char>::empty(),
            d.error@ == Seq::<char>::empty(),
            !d.copied && !d.sending_email && !d.email_sent,
            d.pending_invites@.len() == 0,
    {
        ShareDialog {
            email: String::new(),
            error: String::new(),
            copied: false,
            sending_email: false,
            email_sent: false,
            pending_invites: Vec::new(),
        }
    }

    /// Pressing "Invite". An empty address shows the error and nothing is
    /// sent (`None`). Otherwise sending starts: the error clears, the
    /// "sent" flag drops, and the address to invite is returned.
    pub fn begin_invite(&mut self) -> (to_send: Option<String>)
        ensures
            old(self).email@.len() == 0 ==> {
                &&& to_send is None
                &&& final(self).error@ == "Please enter an email address"@
                &&& final(self).sending_email == old(self).sending_email
                &&& final(self).email_sent == old(self).email_sent
            },
            old(self).email@.len() > 0 ==> {
                &&& to_send matches Some(e) && e@ == old(self).email@
                &&& final(self).error@ == Seq::<char>::empty()
                &&& final(self).sending_email
                &&& !final(self).email_sent
            },
            final(self).email == old(self).email,
            final(self).copied == old(self).copied,
            final(self).pending_invites@ == old(self).pending_invites@,
    {
        match check_invite_email(self.email.as_str()) {
            Err(m) => {
                self.error = String::from_str(m);
                None
            },
            Ok(()) => {
                self.sending_email = true;
                self.error = String::new();
                self.email_sent = false;
                Some(self.email.clone())
            },
        }
    }

    /// The invitation to `email` was sent: the address joins the pending
    /// list, the field and the error clear, "sent" goes up and "sending"
    /// goes down.
    pub fn after_invite_sent(&mut self, email: String)
        ensures
            final(self).pending_invites.deep_view() == old(self).pending_invites.deep_view().push(
                email@,
            ),
            final(self).email@ == Seq::<char>::empty(),
            final(self).error@ == Seq::<char>::empty(),
            final(self).email_sent,
            !final(self).sending_email,
            final(self).copied == old(self).copied,
    {
        let ghost before = self.pending_invites.deep_view();
        self.pending_invites.push(email);
        assert(self.pending_invites.deep_view() =~= before.push(email@));
        self.email_sent = true;
        self.email = String::new();
        self.error = String::new();
        self.sending_email = false;
    }

    /// The invitation could not be sent: the error is shown and "sending"
    /// goes down; the address stays in the field.
    pub fn after_invite_failed(&mut self, error: &str)
        ensures
            final(self).error@ == "Failed to send email: "@ + error@,
            !final(self).sending_email,
            final(self).email == old(self).email,
            final(self).email_sent == old(self).email_sent,
            final(self).copied == old(self).copied,
            final(self).pending_invites@ == old(self).pending_invites@,
    {
        self.error = send_invite_error_message(error);
        self.sending_email = false;
    }

    /// Some seconds after a send, the "sent" notice goes away.
    pub fn clear_sent_notice(&mut self)
        ensures
            !final(self).email_sent,
            final(self).email == old(self).email,
            final(self).error == old(self).error,
            final(self).sending_email == old(self).sending_email,
            final(self).copied == old(self).copied,
            final(self).pending_invites@ == old(self).pending_invites@,
    {
        self.email_sent = false;
    }

    /// Closing the dialog clears the field, the error and the notices; the
    /// pending list is kept for the session.
    pub fn close(&mut self)
        ensures
            final(self).email@ == Seq::<char>::empty(),
            final(self).error@ == Seq::<char>::empty(),
            !final(self).copied,
            !final(self).email_sent,
            final(self).sending_email == old(self).sending_email,
            final(self).pending_invites@ == old(self).pending_invites@,
    {
        self.email = String::new();
        self.error = String::new();
        self.copied = false;
        self.email_sent = false;
    }
}

} // verus!
