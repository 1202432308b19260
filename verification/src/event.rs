//! The protocol event stream: a closed tagged union, one variant per game
//! event the tracker reacts to. Seat numbers are absolute (0..4); the
//! tracker rotates them so that its own seat becomes index 0.

use vstd::prelude::*;

use crate::tile::Tile;

verus! {

/// One game event, in protocol order.
pub enum Event {
    /// Match start: full reset of the instance.
    StartGame,
    /// Hand start: round context, initial deal for the tracked seat, first
    /// dora indicator. `scores` are in absolute seat order.
    StartKyoku {
        bakaze: Tile,
        kyoku: u8,
        honba: u8,
        kyotaku: u8,
        oya: u8,
        dora_marker: Tile,
        scores: Vec<i32>,
        tehai: Vec<Tile>,
    },
    /// A self draw. The drawn tile is hidden for other seats.
    Tsumo { actor: u8, tile: Option<Tile> },
    /// A discard by any seat.
    Dahai { actor: u8, tile: Tile, tsumogiri: bool },
    /// A confirmed run call: `tile` taken from `target`, `own0`/`own1` from
    /// the caller's hand.
    Chi { actor: u8, target: u8, tile: Tile, own0: Tile, own1: Tile },
    /// A confirmed triplet call.
    Pon { actor: u8, target: u8, tile: Tile, own0: Tile, own1: Tile },
    /// A confirmed open quad call.
    Daiminkan { actor: u8, target: u8, tile: Tile, own0: Tile, own1: Tile, own2: Tile },
    /// An open triplet upgraded to a quad with the drawn fourth tile.
    Kakan { actor: u8, tile: Tile },
    /// A concealed quad declared; `tile` names the kind.
    Ankan { actor: u8, tile: Tile },
    /// A riichi declaration (the locking discard follows as its own event).
    Reach { actor: u8 },
    /// The riichi discard survived the call window: the bet is locked in.
    ReachAccepted { actor: u8 },
    /// A new dora indicator is revealed.
    Dora { dora_marker: Tile },
    /// A seat won the hand.
    Hora { actor: u8, target: u8 },
    /// The hand ended in a draw.
    Ryukyoku,
    /// End-of-hand marker.
    EndKyoku,
    /// End-of-match marker: terminal.
    EndGame,
}

impl Event {
    /// Events that open or close a hand; the furiten persistence laws speak
    /// of the events between them.
    pub open spec fn is_boundary(self) -> bool {
        match self {
            Event::StartGame => true,
            Event::StartKyoku { .. } => true,
            Event::EndKyoku => true,
            Event::EndGame => true,
            _ => false,
        }
    }
}

} // verus!
