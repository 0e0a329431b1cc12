//! The records the bots work with. Points in time are Unix timestamps in
//! seconds (UTC).

use vstd::prelude::*;

verus! {

/// A customer of the service: a Telegram user who owns bots.
#[derive(Debug, Clone)]
pub struct Client {
    pub id: i32,
    pub tg_user_id: i64,
    pub plan: String,
    /// End of the paid period, if the client ever had one.
    pub pro_expires_at: Option<i64>,
    pub banned: bool,
}

/// A worker bot as stored: its token, its channel and its setup state.
#[derive(Debug, Clone)]
pub struct BotConfig {
    pub id: i32,
    pub client_id: i32,
    pub token: String,
    pub bot_username: String,
    pub channel_id: i64,
    pub channel_username: Option<String>,
    pub lang: String,
    pub active: bool,
    pub setup_complete: bool,
    pub setup_code: Option<String>,
    pub client_tg_id: Option<i64>,
}

/// A stored message of a proposal.
#[derive(Debug, Clone)]
pub struct Message {
    pub id: i64,
    pub bot_id: i32,
    pub chat_id: i64,
    pub telegram_message_id: i32,
    pub sender_id: i64,
    pub message_text: String,
    pub media_type: String,
    pub media_file_id: String,
    pub media_group_id: Option<String>,
    pub proposal_group_id: String,
    pub created_at: i64,
    pub status: String,
    pub parent_message_id: Option<i64>,
    pub channel_message_id: Option<i32>,
}

/// A message to be stored.
#[derive(Debug, Clone)]
pub struct NewMessage {
    pub bot_id: i32,
    pub chat_id: i64,
    pub telegram_message_id: i32,
    pub sender_id: i64,
    pub message_text: String,
    pub media_type: String,
    pub media_file_id: String,
    pub media_group_id: Option<String>,
    pub proposal_group_id: String,
    pub parent_message_id: Option<i64>,
}

/// A moderator of a worker bot; a frozen one may not act.
#[derive(Debug, Clone)]
pub struct Admin {
    pub id: i32,
    pub bot_id: i32,
    pub user_id: i64,
    pub user_name: String,
    pub frozen: bool,
}

/// A ban, identified to moderators by its ban id; the user is kept only as
/// a hash.
#[derive(Debug, Clone)]
pub struct BanRecord {
    pub ban_id: String,
    pub user_hash: String,
    pub reason: String,
    pub created_at: i64,
}

/// What a user of a worker bot is in the middle of.
#[derive(Debug, Clone)]
pub struct UserState {
    pub state: String,
    pub temp_target_id: i64,
}

/// A message sent to a worker bot as (part of) a proposal, before it has
/// been queued.
#[derive(Debug, Clone)]
pub struct IncomingProposal {
    pub chat_id: i64,
    pub telegram_message_id: i32,
    pub sender_id: i64,
    pub message_text: String,
    pub media_type: String,
    pub media_file_id: String,
    pub media_group_id: Option<String>,
    pub proposal_group_id: String,
    pub parent_message_id: Option<i64>,
}

/// A queued message of a proposal, numbered by the queue.
#[derive(Debug, Clone)]
pub struct ProposalMessage {
    pub id: u64,
    pub sender_id: i64,
    pub message_text: String,
    pub media_type: String,
    pub media_file_id: String,
    pub media_group_id: Option<String>,
    pub proposal_group_id: String,
    pub parent_message_id: Option<i64>,
    pub created_at: i64,
}

/// A proposal as a value: its group id and its messages.
pub struct ProposalView {
    pub group_id: Seq<char>,
    pub messages: Seq<ProposalMessage>,
}

/// A proposal: the messages of one group (an album, or a single message).
#[derive(Debug, Clone)]
pub struct Proposal {
    pub group_id: String,
    pub messages: Vec<ProposalMessage>,
}

impl View for Proposal {
    type V = ProposalView;

    open spec fn view(&self) -> ProposalView {
        ProposalView { group_id: self.group_id@, messages: self.messages@ }
    }
}

fn clone_opt_string(s: &Option<String>) -> (res: Option<String>)
    ensures
        res == *s,
{
    match s {
        Some(v) => Some(v.clone()),
        None => None,
    }
}

impl ProposalMessage {
    /// A copy of the message.
    pub fn duplicate(&self) -> (res: ProposalMessage)
        ensures
            res == *self,
    {
        ProposalMessage {
            id: self.id,
            sender_id: self.sender_id,
            message_text: self.message_text.clone(),
            media_type: self.media_type.clone(),
            media_file_id: self.media_file_id.clone(),
            media_group_id: clone_opt_string(&self.media_group_id),
            proposal_group_id: self.proposal_group_id.clone(),
            parent_message_id: self.parent_message_id,
            created_at: self.created_at,
        }
    }
}

impl Proposal {
    /// A copy of the proposal.
    pub fn duplicate(&self) -> (res: Proposal)
        ensures
            res@ == self@,
    {
        let mut messages: Vec<ProposalMessage> = Vec::new();
        let mut i: usize = 0;
        while i < self.messages.len()
            invariant
                i <= self.messages.len(),
                messages@ == self.messages@.subrange(0, i as int),
            decreases self.messages.len() - i,
        {
            messages.push(self.messages[i].duplicate());
            i = i + 1;
            assert(messages@ =~= self.messages@.subrange(0, i as int));
        }
        assert(self.messages@.subrange(0, i as int) =~= self.messages@);
        Proposal { group_id: self.group_id.clone(), messages }
    }

    /// The first message of the proposal, which identifies it.
    pub fn first(&self) -> (res: &ProposalMessage)
        requires
            self.messages.len() > 0,
        ensures
            *res == self.messages@[0],
    {
        &self.messages[0]
    }
}

} // verus!
