use vstd::prelude::*;

verus! {

/// What kind of entity an actor is. It decides how the actor moves, how its
/// group fires, and which sprite the renderer picks.
#[derive(Clone, Copy, Debug, PartialEq, Eq, Structural)]
pub enum ActorType {
    Player,
    Bullet,
    Enemy,
    Other,
}

/// The tag text is none of `Player`, `Bullet`, `Enemy`, `Other`.
#[derive(Clone, Copy, Debug, PartialEq, Eq, Structural)]
pub struct UnknownTag;

impl ActorType {
    /// The exact, case-sensitive text that names the tag.
    pub open spec fn spec_name(self) -> Seq<char> {
        match self {
            ActorType::Player => seq!['P', 'l', 'a', 'y', 'e', 'r'],
            ActorType::Bullet => seq!['B', 'u', 'l', 'l', 'e', 't'],
            ActorType::Enemy => seq!['E', 'n', 'e', 'm', 'y'],
            ActorType::Other => seq!['O', 't', 'h', 'e', 'r'],
        }
    }

    /// The tag whose name is `s`, if any.
    pub open spec fn spec_from_name(s: Seq<char>) -> Option<ActorType> {
        if s == ActorType::Player.spec_name() {
            Some(ActorType::Player)
        } else if s == ActorType::Bullet.spec_name() {
            Some(ActorType::Bullet)
        } else if s == ActorType::Enemy.spec_name() {
            Some(ActorType::Enemy)
        } else if s == ActorType::Other.spec_name() {
            Some(ActorType::Other)
        } else {
            None
        }
    }

    /// The sprite the renderer draws for an actor of this tag.
    pub open spec fn spec_sprite_name(self) -> Seq<char> {
        match self {
            ActorType::Player | ActorType::Other => seq!['p', 'l', 'a', 'y', 'e', 'r'],
            ActorType::Enemy => seq!['e', 'n', 'e', 'm', 'y'],
            ActorType::Bullet => seq!['s', 'h', 'o', 't'],
        }
    }

    /// The name of the sprite for this tag; actors with no sprite of their
    /// own look like the player.
    pub fn sprite_name(&self) -> (r: &'static str)
        ensures
            r@ == self.spec_sprite_name(),
    {
        proof {
            reveal_strlit("player");
            reveal_strlit("enemy");
            reveal_strlit("shot");
            assert("player"@ =~= ActorType::Player.spec_sprite_name());
            assert("enemy"@ =~= ActorType::Enemy.spec_sprite_name());
            assert("shot"@ =~= ActorType::Bullet.spec_sprite_name());
        }
        match self {
            ActorType::Player | ActorType::Other => "player",
            ActorType::Enemy => "enemy",
            ActorType::Bullet => "shot",
        }
    }

    /// Reads a tag from its exact name.
    pub fn from_name(s: &str) -> (r: Result<ActorType, UnknownTag>)
        ensures
            r is Ok <==> ActorType::spec_from_name(s@) is Some,
            r is Ok ==> Some(r->Ok_0) == ActorType::spec_from_name(s@),
    {
        proof {
            reveal_strlit("Player");
            reveal_strlit("Bullet");
            reveal_strlit("Enemy");
            reveal_strlit("Other");
            assert("Player"@ =~= ActorType::Player.spec_name());
            assert("Bullet"@ =~= ActorType::Bullet.spec_name());
            assert("Enemy"@ =~= ActorType::Enemy.spec_name());
            assert("Other"@ =~= ActorType::Other.spec_name());
        }
        let text = String::from_str(s);
        if text == String::from_str("Player") {
            Ok(ActorType::Player)
        } else if text == String::from_str("Bullet") {
            Ok(ActorType::Bullet)
        } else if text == String::from_str("Enemy") {
            Ok(ActorType::Enemy)
        } else if text == String::from_str("Other") {
            Ok(ActorType::Other)
        } else {
            Err(UnknownTag)
        }
    }
}

impl Default for ActorType {
    /// An actor with no particular role.
    fn default() -> (r: ActorType)
        ensures
            r == ActorType::Other,
    {
        ActorType::Other
    }
}

impl core::str::FromStr for ActorType {
    type Err = UnknownTag;

    fn from_str(s: &str) -> (r: Result<ActorType, UnknownTag>)
        ensures
            r is Ok <==> ActorType::spec_from_name(s@) is Some,
            r is Ok ==> Some(r->Ok_0) == ActorType::spec_from_name(s@),
    {
        ActorType::from_name(s)
    }
}

} // verus!
