//! One run of introductions: for each group in turn, open a direct message,
//! record the pairing, and post the introduction. The run decides; the caller
//! performs each action and reports how it went.

use vstd::prelude::*;
use crate::blocks::{intro_blocks, intro_text, MessageError};
use crate::json::{json_accepts, json_model, Json};
use crate::pairing::{round_after, Pairing};
use crate::partition::copy_strings;
use crate::status::MeetingStatus;

verus! {

/// Where a run stands with its current group.
#[derive(Debug)]
pub enum IntroStage {
    /// About to take up the current group.
    Ready,
    /// The direct message for the current group is being opened.
    Opening { blocks: Json },
    /// The pairing of the current group is being recorded.
    Recording { blocks: Json, channel_id: String },
    /// The introduction of the current group is being posted.
    Posting,
    /// The run is over.
    Done,
}

/// How the last action went.
#[derive(Debug)]
pub enum IntroEvent {
    /// Go on: the run starts, a recording finished (its outcome does not
    /// matter), or a post succeeded.
    Proceed,
    /// The direct message opened with this channel.
    Opened(String),
    /// The action failed.
    Failed,
}

/// Why a run stopped early.
#[derive(Debug, Clone, Copy, PartialEq, Eq, Structural)]
pub enum IntroFailure {
    /// An introduction message was no JSON document.
    Message(MessageError),
    /// A direct message could not be opened.
    DirectMessage,
    /// An introduction could not be posted.
    Post,
}

/// What the caller is to do next.
#[derive(Debug)]
pub enum IntroAction {
    /// Open a direct message with these members.
    OpenDirectMessage(Vec<String>),
    /// Record this pairing; a failure to record is not reported back.
    Record(Pairing),
    /// Post these blocks to this channel.
    Post { channel_id: String, blocks: Json },
    /// The run is over, with this outcome.
    Finish(Result<(), IntroFailure>),
}

/// A run of introductions in a channel, for groups of members, in one round.
#[derive(Debug)]
pub struct IntroRun {
    pub channel: String,
    pub round: i32,
    pub groups: Vec<Vec<String>>,
    pub next: usize,
    pub stage: IntroStage,
}

/// The blocks that introduce a group in a channel.
pub open spec fn group_blocks(channel: Seq<char>, group: Seq<String>) -> Json {
    json_model(intro_text(channel, group[0]@, group[1]@))
}

/// Whether the introduction of a group parses.
pub open spec fn group_blocks_parse(channel: Seq<char>, group: Seq<String>) -> bool {
    json_accepts(intro_text(channel, group[0]@, group[1]@))
}

/// Whether the stage keeps, as the channel to post in, the channel that the
/// event reports opened.
pub open spec fn opened_into(stage: IntroStage, event: IntroEvent) -> bool {
    match (stage, event) {
        (IntroStage::Recording { channel_id, .. }, IntroEvent::Opened(id)) => channel_id == id,
        _ => false,
    }
}

impl IntroRun {
    /// The run is consistent: the current group exists while one is under
    /// way, it has two members at least, and its blocks are its introduction.
    pub open spec fn wf(self) -> bool {
        &&& self.next <= self.groups@.len()
        &&& match self.stage {
            IntroStage::Opening { blocks } => self.next < self.groups@.len() && self.groups@[self.next as int]@.len()
                >= 2 && blocks == group_blocks(self.channel@, self.groups@[self.next as int]@),
            IntroStage::Recording { blocks, channel_id } => self.next < self.groups@.len()
                && self.groups@[self.next as int]@.len() >= 2 && blocks == group_blocks(
                self.channel@,
                self.groups@[self.next as int]@,
            ),
            IntroStage::Posting => self.next < self.groups@.len() && self.groups@[self.next as int]@.len() >= 2,
            _ => true,
        }
    }

    /// The group that the next step takes up, when it takes one up.
    pub open spec fn upcoming(self) -> int {
        match self.stage {
            IntroStage::Posting => self.next + 1,
            _ => self.next as int,
        }
    }

    /// Whether the group that the next step may take up has two members at
    /// least, as introducing it needs.
    pub open spec fn upcoming_ok(self) -> bool {
        0 <= self.upcoming() < self.groups@.len() ==> self.groups@[self.upcoming()]@.len() >= 2
    }

    /// Whether an event answers the action that the stage asked for.
    pub open spec fn expects(self, event: IntroEvent) -> bool {
        match self.stage {
            IntroStage::Ready => event is Proceed,
            IntroStage::Opening { .. } => event is Opened || event is Failed,
            IntroStage::Recording { .. } => event is Proceed || event is Failed,
            IntroStage::Posting => event is Proceed || event is Failed,
            IntroStage::Done => false,
        }
    }

    /// Starts a run in the round after `latest`, which must not be the
    /// greatest `i32`.
    pub fn new(channel: String, groups: Vec<Vec<String>>, latest: i32) -> (run: IntroRun)
        requires
            latest < i32::MAX,
        ensures
            run.wf(),
            run.channel == channel,
            run.groups == groups,
            run.round == latest + 1,
            run.next == 0,
            run.stage is Ready,
    {
        IntroRun { channel, round: round_after(latest), groups, next: 0, stage: IntroStage::Ready }
    }

    /// Tells whether the group that the next step may take up has two
    /// members at least.
    pub fn can_step(&self) -> (r: bool)
        requires
            self.wf(),
        ensures
            r == self.upcoming_ok(),
    {
        let n = self.groups.len();
        let k = match self.stage {
            IntroStage::Posting => {
                assert(self.next < n);
                self.next + 1
            },
            _ => self.next,
        };
        k >= self.groups.len() || self.groups[k].len() >= 2
    }

    /// Takes up the group at `next`, or finishes when there is none.
    fn begin(&mut self) -> (r: IntroAction)
        requires
            old(self).next <= old(self).groups@.len(),
            old(self).next < old(self).groups@.len() ==> old(self).groups@[old(self).next as int]@.len() >= 2,
        ensures
            final(self).wf(),
            final(self).channel == old(self).channel,
            final(self).round == old(self).round,
            final(self).groups == old(self).groups,
            final(self).next == old(self).next,
            old(self).next == old(self).groups@.len() ==> (r matches IntroAction::Finish(Ok(())))
                && final(self).stage is Done,
            old(self).next < old(self).groups@.len() && group_blocks_parse(
                old(self).channel@,
                old(self).groups@[old(self).next as int]@,
            ) ==> (r matches IntroAction::OpenDirectMessage(m) && m@ == old(self).groups@[old(
                self,
            ).next as int]@) && final(self).stage is Opening,
            old(self).next < old(self).groups@.len() && !group_blocks_parse(
                old(self).channel@,
                old(self).groups@[old(self).next as int]@,
            ) ==> (r matches IntroAction::Finish(Err(f)) && f == IntroFailure::Message(MessageError::NotJson))
                && final(self).stage is Done,
    {
        if self.next >= self.groups.len() {
            self.stage = IntroStage::Done;
            return IntroAction::Finish(Ok(()));
        }
        let members = copy_strings(&self.groups[self.next]);
        match intro_blocks(self.channel.as_str(), &self.groups[self.next]) {
            Ok(blocks) => {
                self.stage = IntroStage::Opening { blocks };
                IntroAction::OpenDirectMessage(members)
            },
            Err(e) => {
                self.stage = IntroStage::Done;
                IntroAction::Finish(Err(IntroFailure::Message(e)))
            },
        }
    }

    /// Takes the outcome of the last action and says what to do next. Every
    /// pairing that a run records carries the run's round, which no step
    /// changes.
    pub fn step(&mut self, event: IntroEvent) -> (r: IntroAction)
        requires
            old(self).wf(),
            old(self).expects(event),
            old(self).upcoming_ok(),
        ensures
            final(self).wf(),
            final(self).channel == old(self).channel,
            final(self).round == old(self).round,
            final(self).groups == old(self).groups,
            r matches IntroAction::Record(p) ==> p.round == old(self).round
                && p.meeting_status == MeetingStatus::Open
                && p.names@ == old(self).groups@[old(self).next as int]@
                && event == IntroEvent::Opened(p.group_channel_id),
            old(self).stage is Opening && event is Opened ==> r is Record && final(self).stage is Recording
                && final(self).next == old(self).next,
            old(self).stage is Opening && event is Opened ==> opened_into(final(self).stage, event),
            old(self).stage is Opening && event is Failed ==> (r matches IntroAction::Finish(Err(f)) && f
                == IntroFailure::DirectMessage) && final(self).stage is Done,
            old(self).stage matches IntroStage::Recording { blocks, channel_id } ==> (r matches IntroAction::Post {
                channel_id: c,
                blocks: b,
            } && c == channel_id && b == group_blocks(old(self).channel@, old(self).groups@[old(self).next as int]@))
                && final(self).stage is Posting && final(self).next == old(self).next,
            old(self).stage is Posting && event is Failed ==> (r matches IntroAction::Finish(Err(f)) && f
                == IntroFailure::Post) && final(self).stage is Done,
            (old(self).stage is Ready || (old(self).stage is Posting && event is Proceed)) ==> ({
                let k = old(self).upcoming();
                &&& final(self).next == k
                &&& k == old(self).groups@.len() ==> (r matches IntroAction::Finish(Ok(()))) && final(self).stage is Done
                &&& k < old(self).groups@.len() && group_blocks_parse(old(self).channel@, old(self).groups@[k]@)
                    ==> (r matches IntroAction::OpenDirectMessage(m) && m@ == old(self).groups@[k]@)
                    && final(self).stage is Opening
                &&& k < old(self).groups@.len() && !group_blocks_parse(old(self).channel@, old(self).groups@[k]@)
                    ==> (r matches IntroAction::Finish(Err(f)) && f == IntroFailure::Message(MessageError::NotJson))
                    && final(self).stage is Done
            }),
    {
        let mut stage = IntroStage::Done;
        std::mem::swap(&mut stage, &mut self.stage);
        match stage {
            IntroStage::Ready => self.begin(),
            IntroStage::Opening { blocks } => match event {
                IntroEvent::Opened(id) => {
                    let names = copy_strings(&self.groups[self.next]);
                    let p = Pairing::introduced(id.clone(), self.round, names);
                    self.stage = IntroStage::Recording { blocks, channel_id: id };
                    IntroAction::Record(p)
                },
                _ => IntroAction::Finish(Err(IntroFailure::DirectMessage)),
            },
            IntroStage::Recording { blocks, channel_id } => {
                self.stage = IntroStage::Posting;
                IntroAction::Post { channel_id, blocks }
            },
            IntroStage::Posting => match event {
                IntroEvent::Proceed => {
                    let n = self.groups.len();
                    assert(self.next < n);
                    self.next = self.next + 1;
                    self.begin()
                },
                _ => IntroAction::Finish(Err(IntroFailure::Post)),
            },
            IntroStage::Done => IntroAction::Finish(Ok(())),
        }
    }
}

} // verus!
