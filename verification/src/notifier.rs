//! What the orchestrator reports, and the words it is reported in.

use vstd::prelude::*;
use vstd::string::*;

verus! {

/// The character of a decimal digit.
pub open spec fn digit_char(digit: nat) -> char {
    if digit == 0 {
        '0'
    } else if digit == 1 {
        '1'
    } else if digit == 2 {
        '2'
    } else if digit == 3 {
        '3'
    } else if digit == 4 {
        '4'
    } else if digit == 5 {
        '5'
    } else if digit == 6 {
        '6'
    } else if digit == 7 {
        '7'
    } else if digit == 8 {
        '8'
    } else {
        '9'
    }
}

/// A number in decimal digits, without leading zeros.
pub open spec fn decimal(number: nat) -> Seq<char>
    decreases number,
{
    if number < 10 {
        seq![digit_char(number)]
    } else {
        decimal(number / 10).push(digit_char(number % 10))
    }
}

fn digit_text(digit: u64) -> (text: &'static str)
    requires
        digit < 10,
    ensures
        text@ == seq![digit_char(digit as nat)],
{
    proof {
        reveal_strlit("0");
        reveal_strlit("1");
        reveal_strlit("2");
        reveal_strlit("3");
        reveal_strlit("4");
        reveal_strlit("5");
        reveal_strlit("6");
        reveal_strlit("7");
        reveal_strlit("8");
        reveal_strlit("9");
    }
    let text = if digit == 0 {
        "0"
    } else if digit == 1 {
        "1"
    } else if digit == 2 {
        "2"
    } else if digit == 3 {
        "3"
    } else if digit == 4 {
        "4"
    } else if digit == 5 {
        "5"
    } else if digit == 6 {
        "6"
    } else if digit == 7 {
        "7"
    } else if digit == 8 {
        "8"
    } else {
        "9"
    };
    proof {
        assert(text@ =~= seq![digit_char(digit as nat)]);
    }
    text
}

/// Writes a number in decimal digits.
pub fn decimal_text(number: u64) -> (text: String)
    ensures
        text@ == decimal(number as nat),
    decreases number,
{
    if number < 10 {
        String::from_str(digit_text(number))
    } else {
        let mut text = decimal_text(number / 10);
        text.append(digit_text(number % 10));
        proof {
            assert(text@ =~= decimal(number as nat));
        }
        text
    }
}

/// An event of a cycle that is reported to the operators.
#[derive(Debug, PartialEq, Eq)]
pub enum Notification {
    /// The network's epoch could not be had.
    EpochInfoUnavailable,
    /// The epoch has changed, and the update of `pool` begins.
    UpdateStarting { pool: String, epoch: u64 },
    /// The update of `pool` went through.
    UpdateSucceeded { pool: String, epoch: u64 },
    /// The update of `pool` did not go through.
    UpdateFailed { pool: String },
}

/// A notification, its pool as a sequence of characters.
pub enum NotificationView {
    EpochInfoUnavailable,
    UpdateStarting { pool: Seq<char>, epoch: u64 },
    UpdateSucceeded { pool: Seq<char>, epoch: u64 },
    UpdateFailed { pool: Seq<char> },
}

impl View for Notification {
    type V = NotificationView;

    open spec fn view(&self) -> NotificationView {
        match *self {
            Notification::EpochInfoUnavailable => NotificationView::EpochInfoUnavailable,
            Notification::UpdateStarting { pool, epoch } => NotificationView::UpdateStarting {
                pool: pool@,
                epoch,
            },
            Notification::UpdateSucceeded { pool, epoch } => NotificationView::UpdateSucceeded {
                pool: pool@,
                epoch,
            },
            Notification::UpdateFailed { pool } => NotificationView::UpdateFailed { pool: pool@ },
        }
    }
}

/// The message that reports an event.
pub open spec fn notification_text(notification: NotificationView) -> Seq<char> {
    match notification {
        NotificationView::EpochInfoUnavailable => "Rpc is failing to get the latest epoch info. Retrying again in 5 minutes"@,
        NotificationView::UpdateStarting { pool, epoch } => "Epoch changed, executing update for stake pool "@
            + pool + " for epoch "@ + decimal(epoch as nat),
        NotificationView::UpdateSucceeded { pool, epoch } => "Successfully updated stake pool "@ + pool
            + " for epoch "@ + decimal(epoch as nat),
        NotificationView::UpdateFailed { pool } => "Failed to run command to update stake pool "@ + pool,
    }
}

impl Notification {
    /// The message that reports this event.
    pub fn text(&self) -> (text: String)
        ensures
            text@ == notification_text(self@),
    {
        match self {
            Notification::EpochInfoUnavailable => String::from_str(
                "Rpc is failing to get the latest epoch info. Retrying again in 5 minutes",
            ),
            Notification::UpdateStarting { pool, epoch } => {
                let mut text = String::from_str("Epoch changed, executing update for stake pool ");
                text.append(pool.as_str());
                text.append(" for epoch ");
                let number = decimal_text(*epoch);
                text.append(number.as_str());
                text
            },
            Notification::UpdateSucceeded { pool, epoch } => {
                let mut text = String::from_str("Successfully updated stake pool ");
                text.append(pool.as_str());
                text.append(" for epoch ");
                let number = decimal_text(*epoch);
                text.append(number.as_str());
                text
            },
            Notification::UpdateFailed { pool } => {
                let mut text = String::from_str("Failed to run command to update stake pool ");
                text.append(pool.as_str());
                text
            },
        }
    }

    /// Copies the notification.
    pub fn duplicate(&self) -> (copy: Notification)
        ensures
            copy@ == self@,
    {
        match self {
            Notification::EpochInfoUnavailable => Notification::EpochInfoUnavailable,
            Notification::UpdateStarting { pool, epoch } => Notification::UpdateStarting {
                pool: pool.clone(),
                epoch: *epoch,
            },
            Notification::UpdateSucceeded { pool, epoch } => Notification::UpdateSucceeded {
                pool: pool.clone(),
                epoch: *epoch,
            },
            Notification::UpdateFailed { pool } => Notification::UpdateFailed { pool: pool.clone() },
        }
    }
}

} // verus!
