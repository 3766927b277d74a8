//! Content resolution: the fixed priority cascade that collapses the four
//! status sources into one status line with at most one click action.

use vstd::prelude::*;
use vstd::string::StringExecFns;
use crate::pending::PendingWorkItem;
use crate::status::{StatusRecord, checking_names, downloading_names, failed_names};
use crate::text::{dec_digits, joined, plural_suffix, push_dec, push_plural_suffix, join_names};

verus! {

/// The icons the widget can show.
#[derive(Clone, Copy, PartialEq, Eq, Debug, Structural)]
pub enum Icon {
    Download,
    Warning,
}

/// The click actions a rendered content can carry.
#[derive(Clone, Copy, PartialEq, Eq, Debug, Structural)]
pub enum ActionTag {
    ShowErrors,
    DismissUpdateError,
    RestartToUpdate,
}

/// The external self-update state machine's current state.
#[derive(Clone, Copy, PartialEq, Eq, Debug, Structural)]
pub enum AutoUpdateState {
    Idle,
    Checking,
    Downloading,
    Installing,
    Updated,
    Errored,
}

/// What the widget renders: an optional icon, a message, and an optional
/// click action. Recomputed on every render, never stored.
pub struct Content {
    pub icon: Option<Icon>,
    pub message: String,
    pub action: Option<ActionTag>,
}

/// The mathematical shape of a `Content`.
pub ghost struct ContentModel {
    pub icon: Option<Icon>,
    pub message: Seq<char>,
    pub action: Option<ActionTag>,
}

impl Content {
    /// The model of this content: the message as a character sequence.
    pub open spec fn model(self) -> ContentModel {
        ContentModel { icon: self.icon, message: self.message@, action: self.action }
    }
}

/// The empty content: no icon, empty message, no action.
pub open spec fn empty_content() -> ContentModel {
    ContentModel { icon: Option::None, message: Seq::empty(), action: Option::None }
}

/// The status line for the head pending-work item: provider name, message or
/// token, optional percentage, and a count of the remaining items.
pub open spec fn pending_message(items: Seq<PendingWorkItem>) -> Seq<char>
    recommends
        items.len() > 0,
{
    let head = items[0];
    let body = match head.message {
        Option::Some(m) => m@,
        Option::None => head.token@,
    };
    let pct = match head.percentage {
        Option::Some(p) => " ("@ + dec_digits(p as nat) + "%)"@,
        Option::None => Seq::<char>::empty(),
    };
    let more = if items.len() > 1 {
        " + "@ + dec_digits((items.len() - 1) as nat) + " more"@
    } else {
        Seq::<char>::empty()
    };
    head.provider_name@ + ": "@ + body + pct + more
}

/// The message for a non-empty `downloading` bucket.
pub open spec fn downloading_message(names: Seq<Seq<char>>) -> Seq<char> {
    "Downloading "@ + joined(names) + " language server"@ + plural_suffix(names.len()) + "..."@
}

/// The message for a non-empty `checking_for_update` bucket.
pub open spec fn checking_message(names: Seq<Seq<char>>) -> Seq<char> {
    "Checking for updates to "@ + joined(names) + " language server"@ + plural_suffix(names.len())
        + "..."@
}

/// The message for a non-empty `failed` bucket.
pub open spec fn failed_message(names: Seq<Seq<char>>) -> Seq<char> {
    "Failed to download "@ + joined(names) + " language server"@ + plural_suffix(names.len())
        + ". Click to show error."@
}

/// The fixed state-to-content table of the auto-updater. An attached updater
/// in `Idle` state still yields (empty) content: it ends the cascade.
pub open spec fn update_content(state: AutoUpdateState) -> ContentModel {
    match state {
        AutoUpdateState::Checking => ContentModel {
            icon: Option::Some(Icon::Download),
            message: "Checking for updates…"@,
            action: Option::None,
        },
        AutoUpdateState::Downloading => ContentModel {
            icon: Option::Some(Icon::Download),
            message: "Downloading update…"@,
            action: Option::None,
        },
        AutoUpdateState::Installing => ContentModel {
            icon: Option::Some(Icon::Download),
            message: "Installing update…"@,
            action: Option::None,
        },
        AutoUpdateState::Updated => ContentModel {
            icon: Option::None,
            message: "Click to restart and update"@,
            action: Option::Some(ActionTag::RestartToUpdate),
        },
        AutoUpdateState::Errored => ContentModel {
            icon: Option::Some(Icon::Warning),
            message: "Auto update failed"@,
            action: Option::Some(ActionTag::DismissUpdateError),
        },
        AutoUpdateState::Idle => empty_content(),
    }
}

/// The whole priority cascade: pending work, then the install-status buckets
/// (downloading, checking, failed), then an attached auto-updater whatever
/// its state, then the most recent ambient task, then empty content.
pub open spec fn resolve(
    statuses: Seq<StatusRecord>,
    pending: Seq<PendingWorkItem>,
    updater: Option<AutoUpdateState>,
    tasks: Seq<Seq<char>>,
) -> ContentModel {
    if pending.len() > 0 {
        ContentModel {
            icon: Option::None,
            message: pending_message(pending),
            action: Option::None,
        }
    } else if downloading_names(statuses).len() > 0 {
        ContentModel {
            icon: Option::Some(Icon::Download),
            message: downloading_message(downloading_names(statuses)),
            action: Option::None,
        }
    } else if checking_names(statuses).len() > 0 {
        ContentModel {
            icon: Option::Some(Icon::Download),
            message: checking_message(checking_names(statuses)),
            action: Option::None,
        }
    } else if failed_names(statuses).len() > 0 {
        ContentModel {
            icon: Option::Some(Icon::Warning),
            message: failed_message(failed_names(statuses)),
            action: Option::Some(ActionTag::ShowErrors),
        }
    } else if updater is Some {
        update_content(updater->0)
    } else if tasks.len() > 0 {
        ContentModel { icon: Option::None, message: tasks.last(), action: Option::None }
    } else {
        empty_content()
    }
}

/// Cascade precedence law: pending work wins over everything, a failed
/// install in particular; and with no pending work and no active downloads
/// or update checks, a failed install wins over an attached auto-updater,
/// whatever its state — `Errored` included.
pub proof fn lemma_cascade_precedence(
    statuses: Seq<StatusRecord>,
    pending: Seq<PendingWorkItem>,
    updater: Option<AutoUpdateState>,
    tasks: Seq<Seq<char>>,
)
    ensures
        pending.len() > 0 ==> resolve(statuses, pending, updater, tasks) == (ContentModel {
            icon: Option::None,
            message: pending_message(pending),
            action: Option::None,
        }),
        pending.len() == 0 && downloading_names(statuses).len() == 0 && checking_names(
            statuses,
        ).len() == 0 && failed_names(statuses).len() > 0 ==> resolve(
            statuses,
            pending,
            updater,
            tasks,
        ) == (ContentModel {
            icon: Option::Some(Icon::Warning),
            message: failed_message(failed_names(statuses)),
            action: Option::Some(ActionTag::ShowErrors),
        }),
{
}

/// Builds the content for a non-empty pending-work view.
pub fn pending_content(items: &Vec<PendingWorkItem>) -> (c: Content)
    requires
        items@.len() > 0,
    ensures
        c.model() == (ContentModel {
            icon: Option::None,
            message: pending_message(items@),
            action: Option::None,
        }),
{
    let head = &items[0];
    let mut message = head.provider_name.clone();
    message.append(": ");
    match &head.message {
        Option::Some(m) => message.append(m.as_str()),
        Option::None => message.append(head.token.as_str()),
    }
    match head.percentage {
        Option::Some(p) => {
            message.append(" (");
            push_dec(&mut message, p as u64);
            message.append("%)");
        },
        Option::None => {},
    }
    if items.len() > 1 {
        message.append(" + ");
        push_dec(&mut message, (items.len() - 1) as u64);
        message.append(" more");
    }
    proof {
        assert(message@ =~= pending_message(items@));
    }
    Content { icon: Option::None, message, action: Option::None }
}

/// Builds the content for the attached auto-updater's current state.
pub fn auto_update_content(state: &AutoUpdateState) -> (c: Content)
    ensures
        c.model() == update_content(*state),
{
    match state {
        AutoUpdateState::Checking => Content {
            icon: Option::Some(Icon::Download),
            message: String::from_str("Checking for updates…"),
            action: Option::None,
        },
        AutoUpdateState::Downloading => Content {
            icon: Option::Some(Icon::Download),
            message: String::from_str("Downloading update…"),
            action: Option::None,
        },
        AutoUpdateState::Installing => Content {
            icon: Option::Some(Icon::Download),
            message: String::from_str("Installing update…"),
            action: Option::None,
        },
        AutoUpdateState::Updated => Content {
            icon: Option::None,
            message: String::from_str("Click to restart and update"),
            action: Option::Some(ActionTag::RestartToUpdate),
        },
        AutoUpdateState::Errored => Content {
            icon: Option::Some(Icon::Warning),
            message: String::from_str("Auto update failed"),
            action: Option::Some(ActionTag::DismissUpdateError),
        },
        AutoUpdateState::Idle => Content {
            icon: Option::None,
            message: String::new(),
            action: Option::None,
        },
    }
}

/// Builds the message for one non-empty install-status bucket: the prefix,
/// the joined names, `" language server"`, the plural suffix, and the tail.
fn bucket_message(prefix: &str, names: &Vec<String>, tail: &str) -> (r: String)
    ensures
        r@ == prefix@ + joined(names.deep_view()) + " language server"@ + plural_suffix(
            names.deep_view().len(),
        ) + tail@,
{
    let mut message = String::from_str(prefix);
    let joined_names = join_names(names);
    message.append(joined_names.as_str());
    message.append(" language server");
    push_plural_suffix(&mut message, names.len());
    message.append(tail);
    proof {
        assert(message@ =~= prefix@ + joined(names.deep_view()) + " language server"@
            + plural_suffix(names.deep_view().len()) + tail@);
    }
    message
}

/// Builds the content for a non-empty `downloading` bucket.
pub fn downloading_content(names: &Vec<String>) -> (c: Content)
    ensures
        c.model() == (ContentModel {
            icon: Option::Some(Icon::Download),
            message: downloading_message(names.deep_view()),
            action: Option::None,
        }),
{
    Content {
        icon: Option::Some(Icon::Download),
        message: bucket_message("Downloading ", names, "..."),
        action: Option::None,
    }
}

/// Builds the content for a non-empty `checking_for_update` bucket.
pub fn checking_content(names: &Vec<String>) -> (c: Content)
    ensures
        c.model() == (ContentModel {
            icon: Option::Some(Icon::Download),
            message: checking_message(names.deep_view()),
            action: Option::None,
        }),
{
    Content {
        icon: Option::Some(Icon::Download),
        message: bucket_message("Checking for updates to ", names, "..."),
        action: Option::None,
    }
}

/// Builds the content for a non-empty `failed` bucket; clicking it shows the
/// recorded errors.
pub fn failed_content(names: &Vec<String>) -> (c: Content)
    ensures
        c.model() == (ContentModel {
            icon: Option::Some(Icon::Warning),
            message: failed_message(names.deep_view()),
            action: Option::Some(ActionTag::ShowErrors),
        }),
{
    Content {
        icon: Option::Some(Icon::Warning),
        message: bucket_message("Failed to download ", names, ". Click to show error."),
        action: Option::Some(ActionTag::ShowErrors),
    }
}

} // verus!
