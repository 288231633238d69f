//! The top-level description of one game variant and its component files.

use vstd::prelude::*;

use crate::fields::FieldStructure;
use crate::pieces::PieceStructure;
use crate::rules::RuleSet;
use crate::validator::Validatable;

verus! {

/// The bundled data of one game variant, as the external loader hands it
/// over: each part already decoded and validated.
pub struct GameData {
    /// The board: fields, sets, relations.
    pub board: FieldStructure,
    /// The piece sets.
    pub pieces: PieceStructure,
    /// The game metadata.
    pub game: GameDefinition,
    /// The rule set that drives the phase-flow engine.
    pub rules: RuleSet,
}

/// Whether `c` is whitespace: a member of the Unicode White_Space set, the
/// characters trimming removes.
pub open spec fn is_space_char(c: char) -> bool {
    ||| 0x9 <= c as u32 <= 0xd
    ||| c as u32 == 0x20
    ||| c as u32 == 0x85
    ||| c as u32 == 0xa0
    ||| c as u32 == 0x1680
    ||| 0x2000 <= c as u32 <= 0x200a
    ||| c as u32 == 0x2028
    ||| c as u32 == 0x2029
    ||| c as u32 == 0x202f
    ||| c as u32 == 0x205f
    ||| c as u32 == 0x3000
}

/// Whether a text is blank: empty, or nothing but whitespace. A blank text
/// trims to the empty string.
pub open spec fn is_blank(s: Seq<char>) -> bool {
    forall|i: int| 0 <= i < s.len() ==> is_space_char(#[trigger] s[i])
}

/// Decides whether `c` is whitespace.
pub fn char_is_space(c: char) -> (r: bool)
    ensures
        r == is_space_char(c),
{
    let u = c as u32;
    (0x9 <= u && u <= 0xd) || u == 0x20 || u == 0x85 || u == 0xa0 || u == 0x1680 || (0x2000 <= u
        && u <= 0x200a) || u == 0x2028 || u == 0x2029 || u == 0x202f || u == 0x205f || u == 0x3000
}

/// Decides whether a text is blank (would trim to the empty string).
#[verifier::loop_isolation(false)]
pub fn is_blank_text(s: &String) -> (r: bool)
    ensures
        r == is_blank(s@),
{
    let text = s.as_str();
    let n = text.unicode_len();
    let mut i: usize = 0;
    while i < n
        invariant
            0 <= i <= n,
            forall|k: int| 0 <= k < i ==> is_space_char(#[trigger] s@[k]),
        decreases n - i,
    {
        if !char_is_space(text.get_char(i)) {
            return false;
        }
        i += 1;
    }
    true
}

/// The metadata of a game variant, with the names of the component
/// definitions it is assembled from. An empty component name selects the
/// variant's own default file.
#[derive(Debug, PartialEq, Eq)]
pub struct GameDefinition {
    /// Unique identifier of the game.
    pub id: String,
    /// Display name of the game.
    pub name: String,
    /// Author or creator of the game.
    pub author: String,
    /// Version of the game definition.
    pub version: String,
    /// Short description of the game.
    pub description: String,
    /// Name of the board definition to load.
    pub board: String,
    /// Name of the card definition to load.
    pub cards: String,
    /// Name of the dice definition to load.
    pub dices: String,
    /// Name of the piece definition to load.
    pub pieces: String,
    /// Name of the rule definition to load.
    pub rule: String,
}

impl Validatable for GameDefinition {
    /// A game definition is valid when its identifier and its name each hold
    /// at least one non-whitespace character.
    open spec fn valid(&self) -> bool {
        !is_blank(self.id@) && !is_blank(self.name@)
    }

    fn validate(&self) -> (r: Result<(), String>) {
        if is_blank_text(&self.id) {
            return Err("GameDefinition: 'id' must not be empty.".to_owned());
        }
        if is_blank_text(&self.name) {
            return Err("GameDefinition: 'name' must not be empty.".to_owned());
        }
        Ok(())
    }
}

} // verus!
