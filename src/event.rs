use vstd::prelude::*;

verus! {

/// What a market event did to the book.
#[derive(Clone, Copy, Debug, PartialEq, Eq, Structural)]
pub enum Action {
    Add,
    Cancel,
    Modify,
    Clear,
    Trade,
    Fill,
    Other,
}

/// The resting side an event refers to.
#[derive(Clone, Copy, Debug, PartialEq, Eq, Structural)]
pub enum Side {
    Ask,
    Bid,
    Neither,
}

pub open spec fn action_of_code(c: u8) -> Action {
    if c == 84 {
        Action::Trade
    } else if c == 82 {
        Action::Clear
    } else if c == 65 {
        Action::Add
    } else if c == 67 {
        Action::Cancel
    } else if c == 77 {
        Action::Modify
    } else if c == 70 {
        Action::Fill
    } else {
        Action::Other
    }
}

pub open spec fn side_of_code(c: u8) -> Side {
    if c == 65 {
        Side::Ask
    } else if c == 66 {
        Side::Bid
    } else {
        Side::Neither
    }
}

impl Action {
    /// Reads the one-letter wire code: `T`rade, clea`R`, `A`dd, `C`ancel,
    /// `M`odify, `F`ill; anything else is `Other`.
    pub fn from_code(c: u8) -> (r: Action)
        ensures
            r == action_of_code(c),
    {
        if c == 84 {
            Action::Trade
        } else if c == 82 {
            Action::Clear
        } else if c == 65 {
            Action::Add
        } else if c == 67 {
            Action::Cancel
        } else if c == 77 {
            Action::Modify
        } else if c == 70 {
            Action::Fill
        } else {
            Action::Other
        }
    }
}

impl Side {
    /// Reads the one-letter wire code: `A`sk, `B`id; anything else is `Neither`.
    pub fn from_code(c: u8) -> (r: Side)
        ensures
            r == side_of_code(c),
    {
        if c == 65 {
            Side::Ask
        } else if c == 66 {
            Side::Bid
        } else {
            Side::Neither
        }
    }
}

/// One observation of the stream: the event's action, side and traded size,
/// and the best bid and ask (price, resting size, resting order count) as of
/// this event.
#[derive(Clone, Copy, Debug, PartialEq, Eq, Structural)]
pub struct MarketEvent {
    pub action: Action,
    pub side: Side,
    pub size: u32,
    pub bid_px: i64,
    pub bid_sz: u32,
    pub bid_ct: u32,
    pub ask_px: i64,
    pub ask_sz: u32,
    pub ask_ct: u32,
}

} // verus!
