//! The local session authority: account characters, the home-instance
//! registry, the login state, and the control-channel protocol by which a
//! supervisor asks an instance to shut down. Spawning instance processes
//! and moving bytes stays outside; this module makes the decisions.

use vstd::prelude::*;

use crate::assoc::key_index;
use crate::assoc::lemma_key_index_first;
use crate::assoc::lemma_key_index_none;
use crate::assoc::lemma_key_index_skip;
use crate::game::Character;
use crate::game::CharacterKind;

verus! {

/// What a library operation can reject.
#[derive(Debug, Clone, Copy, PartialEq, Eq, Structural)]
pub enum Error {
    InvalidCharacterId,
    InvalidCharacterKind,
}

/// Which flavor of session authority is running.
#[derive(Debug, Clone, Copy, PartialEq, Eq, Structural)]
pub enum ManagerKind {
    Online,
    Local,
}

/// A control message an instance receives over its supervision channel.
#[derive(Debug, Clone, Copy, PartialEq, Eq, Structural)]
pub enum Message {
    Shutdown,
    Teapot,
}

/// Whether two byte strings hold the same bytes.
pub fn bytes_eq(a: &[u8], b: &[u8]) -> (r: bool)
    ensures
        r == (a@ == b@),
{
    if a.len() != b.len() {
        return false;
    }
    let n = a.len();
    let mut i: usize = 0;
    while i < n
        invariant
            n == a@.len(),
            n == b@.len(),
            i <= n,
            forall|j: int| 0 <= j < i ==> a@[j] == b@[j],
        decreases n - i,
    {
        if a[i] != b[i] {
            return false;
        }
        i = i + 1;
    }
    proof {
        assert(a@ =~= b@);
    }
    true
}

/// The control line "shutdown", as bytes.
pub open spec fn shutdown_line() -> Seq<u8> {
    seq![115u8, 104u8, 117u8, 116u8, 100u8, 111u8, 119u8, 110u8]
}

/// The control line "teapot", as bytes.
pub open spec fn teapot_line() -> Seq<u8> {
    seq![116u8, 101u8, 97u8, 112u8, 111u8, 116u8]
}

/// Parses one trimmed control line: "shutdown" and "teapot" are the only
/// recognized messages, anything else is ignored.
pub fn parse_control_message(line: &[u8]) -> (r: Option<Message>)
    ensures
        r == (if line@ == shutdown_line() {
            Some(Message::Shutdown)
        } else if line@ == teapot_line() {
            Some(Message::Teapot)
        } else {
            None::<Message>
        }),
{
    let shutdown: [u8; 8] = [115, 104, 117, 116, 100, 111, 119, 110];
    let teapot: [u8; 6] = [116, 101, 97, 112, 111, 116];
    proof {
        assert(shutdown@ =~= shutdown_line());
        assert(teapot@ =~= teapot_line());
    }
    if bytes_eq(line, shutdown.as_slice()) {
        Some(Message::Shutdown)
    } else if bytes_eq(line, teapot.as_slice()) {
        Some(Message::Teapot)
    } else {
        None
    }
}

/// The login state of the local backend.
#[derive(Debug, Clone)]
pub enum State {
    Inactive,
    LoggedIn { character_id: u32, active_instance: u128, connected_instances: Vec<u128> },
}

/// What `enter_game` needs next: an already running home instance, or a
/// fresh one the caller must create before completing the login.
#[derive(Debug, Clone, Copy, PartialEq, Eq, Structural)]
pub enum EnterGame {
    UseExisting(u128),
    NeedsNewInstance,
}

/// The account state of the local session authority: created characters,
/// each character's home instance, and who is logged in.
#[derive(Debug, Clone)]
pub struct LocalBackend {
    pub characters: Vec<Character>,
    pub home_instances: Vec<(u64, u128)>,
    pub state: State,
}

impl LocalBackend {
    /// A logged-in state always points at an existing character.
    pub open spec fn wf(&self) -> bool {
        match self.state {
            State::LoggedIn { character_id, .. } => character_id < self.characters@.len(),
            State::Inactive => true,
        }
    }

    pub fn new() -> (r: LocalBackend)
        ensures
            r.wf(),
            r.characters@.len() == 0,
            r.home_instances@.len() == 0,
            r.state is Inactive,
    {
        LocalBackend { characters: Vec::new(), home_instances: Vec::new(), state: State::Inactive }
    }

    /// Creates a character under this account. The `Normal` kind belongs
    /// to the online authority and is rejected here, exactly then; any
    /// other kind yields a character whose id is its index.
    pub fn create_character(&mut self, name: &str, kind: CharacterKind) -> (r: Result<
        Character,
        Error,
    >)
        requires
            old(self).wf(),
            old(self).characters@.len() < u32::MAX,
        ensures
            final(self).wf(),
            kind == CharacterKind::Normal ==> (r == Err::<Character, Error>(
                Error::InvalidCharacterKind,
            ) && final(self).characters@ == old(self).characters@),
            kind != CharacterKind::Normal ==> (match r {
                Ok(c) => {
                    &&& c.account_id == 0
                    &&& c.character_id == old(self).characters@.len()
                    &&& c.name@ == name@
                    &&& c.kind == kind
                    &&& final(self).characters@.len() == old(self).characters@.len() + 1
                    &&& final(self).characters@.take(old(self).characters@.len() as int) == old(
                        self,
                    ).characters@
                    &&& final(self).characters@.last().character_id == old(
                        self,
                    ).characters@.len()
                    &&& final(self).characters@.last().name@ == name@
                    &&& final(self).characters@.last().kind == kind
                },
                Err(_) => false,
            }),
            final(self).home_instances == old(self).home_instances,
            final(self).state == old(self).state,
    {
        if kind == CharacterKind::Normal {
            return Err(Error::InvalidCharacterKind);
        }

        let character = Character {
            account_id: 0,
            character_id: self.characters.len() as u32,
            name: name.to_owned(),
            kind,
        };
        let copy = Character {
            account_id: character.account_id,
            character_id: character.character_id,
            name: character.name.clone(),
            kind: character.kind,
        };
        self.characters.push(character);
        proof {
            assert(self.characters@.take(old(self).characters@.len() as int) =~= old(
                self,
            ).characters@);
        }
        Ok(copy)
    }

    /// Decides how to enter the game with a character: an unknown id is
    /// rejected, a registered home instance is reused, and otherwise the
    /// caller must create one.
    pub fn enter_game_target(&self, character_id: u32) -> (r: Result<EnterGame, Error>)
        ensures
            character_id >= self.characters@.len() ==> r == Err::<EnterGame, Error>(
                Error::InvalidCharacterId,
            ),
            character_id < self.characters@.len() ==> r == Ok::<EnterGame, Error>(
                match key_index(self.home_instances@, character_id as u64) {
                    Some(i) => EnterGame::UseExisting(self.home_instances@[i].1),
                    None => EnterGame::NeedsNewInstance,
                },
            ),
    {
        if character_id as usize >= self.characters.len() {
            return Err(Error::InvalidCharacterId);
        }
        match self.home_for(character_id) {
            Some(home) => Ok(EnterGame::UseExisting(home)),
            None => Ok(EnterGame::NeedsNewInstance),
        }
    }

    /// The registered home instance of a character, if any.
    pub fn home_for(&self, character_id: u32) -> (r: Option<u128>)
        ensures
            r == (match key_index(self.home_instances@, character_id as u64) {
                Some(i) => Some(self.home_instances@[i].1),
                None => None::<u128>,
            }),
    {
        let key = character_id as u64;
        let n = self.home_instances.len();
        let mut i: usize = 0;
        proof {
            lemma_key_index_skip(self.home_instances@, key);
        }
        while i < n
            invariant
                n == self.home_instances@.len(),
                i <= n,
                key == character_id as u64,
                forall|j: int| 0 <= j < i ==> (#[trigger] self.home_instances@[j]).0 != key,
            decreases n - i,
        {
            let pair = self.home_instances[i];
            if pair.0 == key {
                proof {
                    lemma_key_index_first(self.home_instances@, key, i as int);
                }
                return Some(pair.1);
            }
            i = i + 1;
        }
        proof {
            lemma_key_index_none(self.home_instances@, key);
        }
        None
    }

    /// Completes entering the game: the instance becomes the character's
    /// home if it had none, and the account logs in with that instance
    /// active and connected.
    pub fn complete_enter_game(&mut self, character_id: u32, instance_id: u128)
        requires
            old(self).wf(),
            character_id < old(self).characters@.len(),
        ensures
            final(self).wf(),
            final(self).characters == old(self).characters,
            final(self).home_instances@ == (match key_index(
                old(self).home_instances@,
                character_id as u64,
            ) {
                Some(_) => old(self).home_instances@,
                None => old(self).home_instances@.push((character_id as u64, instance_id)),
            }),
            (final(self).state matches State::LoggedIn {
                character_id: cid,
                active_instance,
                connected_instances,
            } && cid == character_id && active_instance == instance_id
                && connected_instances@ == seq![instance_id]),
    {
        match self.home_for(character_id) {
            Some(_) => {},
            None => {
                self.home_instances.push((character_id as u64, instance_id));
            },
        }
        let mut connected: Vec<u128> = Vec::new();
        connected.push(instance_id);
        proof {
            assert(connected@ =~= seq![instance_id]);
        }
        self.state = State::LoggedIn {
            character_id,
            active_instance: instance_id,
            connected_instances: connected,
        };
    }

    /// The logged-in character, if any.
    pub fn get_current_character(&self) -> (r: Option<Character>)
        requires
            self.wf(),
        ensures
            (match self.state {
                State::LoggedIn { character_id, .. } => ({
                    let c = self.characters@[character_id as int];
                    match r {
                        Some(got) => got.account_id == c.account_id && got.character_id
                            == c.character_id && got.name@ == c.name@ && got.kind == c.kind,
                        None => false,
                    }
                }),
                State::Inactive => r is None,
            }),
    {
        match &self.state {
            State::Inactive => None,
            State::LoggedIn { character_id, .. } => {
                let c = &self.characters[*character_id as usize];
                Some(
                    Character {
                        account_id: c.account_id,
                        character_id: c.character_id,
                        name: c.name.clone(),
                        kind: c.kind,
                    },
                )
            },
        }
    }

    /// The instances the logged-in account is connected to; none when
    /// logged out.
    pub fn get_connected_instances(&self) -> (r: Vec<u128>)
        ensures
            (match self.state {
                State::LoggedIn { connected_instances, .. } => r@ == connected_instances@,
                State::Inactive => r@.len() == 0,
            }),
    {
        match &self.state {
            State::Inactive => Vec::new(),
            State::LoggedIn { connected_instances, .. } => {
                let n = connected_instances.len();
                let mut out: Vec<u128> = Vec::new();
                let mut i: usize = 0;
                while i < n
                    invariant
                        n == connected_instances@.len(),
                        i <= n,
                        out@ == connected_instances@.take(i as int),
                    decreases n - i,
                {
                    out.push(connected_instances[i]);
                    proof {
                        assert(out@ =~= connected_instances@.take(i + 1));
                    }
                    i = i + 1;
                }
                proof {
                    assert(connected_instances@.take(n as int) =~= connected_instances@);
                }
                out
            },
        }
    }

    /// The active instance of the logged-in account, if any.
    pub fn get_current_instance(&self) -> (r: Option<u128>)
        ensures
            r == (match self.state {
                State::LoggedIn { active_instance, .. } => Some(active_instance),
                State::Inactive => None::<u128>,
            }),
    {
        match &self.state {
            State::Inactive => None,
            State::LoggedIn { active_instance, .. } => Some(*active_instance),
        }
    }
}

} // verus!
