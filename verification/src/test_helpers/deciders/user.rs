//! Users, who have a name and guitars.

use crate::decider::{views, CloneKeepsView, Decider, DeciderWithContext, Event, Evolver};
use crate::decimal::{spec_decimal, usize_to_decimal};
use crate::repository::StreamIdFromEvent;
use crate::strategies::{
    DecideEvolveWithCommandResponse, LoadDecideAppend, ReifyDecideSave, StateFromEventRepository,
};
use crate::test_helpers::ValueType;
use ctx::{IdGen, UserDeciderCtx};
use std::collections::HashMap;
use vstd::prelude::*;
use vstd::utf8::encode_utf8;

pub mod ctx;

verus! {

broadcast use vstd::std_specs::hash::group_hash_axioms;

pub type UserId = usize;

pub type UnvalidatedUserName = String;

#[derive(Debug, PartialEq, Eq, Hash)]
pub struct Guitar {
    pub brand: String,
}

impl View for Guitar {
    type V = Seq<char>;

    open spec fn view(&self) -> Seq<char> {
        self.brand@
    }
}

impl Clone for Guitar {
    fn clone(&self) -> (copy: Self)
        ensures
            copy == *self,
    {
        Guitar { brand: self.brand.clone() }
    }
}

impl CloneKeepsView for Guitar {
    proof fn lemma_clone_keeps_view(a: Self, b: Self) {
    }
}

/// The longest name that a user can have, in bytes.
pub const MAX_NAME_LEN: usize = 10;

/// The length of a name as it is measured: in bytes of UTF-8.
pub open spec fn name_len(text: Seq<char>) -> nat {
    encode_utf8(text).len()
}

/// Whether a user can have the name `text`: it is not empty, and no longer
/// than `MAX_NAME_LEN`.
pub open spec fn valid_name(text: Seq<char>) -> bool {
    1 <= name_len(text) <= MAX_NAME_LEN
}

#[derive(Debug)]
pub enum UserFieldError {
    EmptyName,
    /// The name, which is too long.
    NameToLong(String),
}

/// The error with which the name `text` is refused, if it is.
pub open spec fn name_refused_with(text: Seq<char>, error: UserFieldError) -> bool {
    match error {
        UserFieldError::EmptyName => name_len(text) < 1,
        UserFieldError::NameToLong(name) => name_len(text) > MAX_NAME_LEN && name@ == text,
    }
}

/// A name that a user can have.
#[derive(Debug, PartialEq, Eq)]
pub struct UserName(String);

impl View for UserName {
    type V = Seq<char>;

    closed spec fn view(&self) -> Seq<char> {
        self.0@
    }
}

impl Clone for UserName {
    fn clone(&self) -> (copy: Self)
        ensures
            copy@ == self@,
    {
        proof {
            use_type_invariant(self);
        }
        UserName(self.0.clone())
    }
}

impl CloneKeepsView for UserName {
    proof fn lemma_clone_keeps_view(a: Self, b: Self) {
    }
}

impl UserName {
    #[verifier::type_invariant]
    spec fn is_valid(self) -> bool {
        valid_name(self.0@)
    }

    /// Takes `value` for a name if a user can have it.
    pub fn validate(value: String) -> (res: Result<UserName, UserFieldError>)
        ensures
            match res {
                Ok(name) => valid_name(value@) && name@ == value@,
                Err(error) => !valid_name(value@) && name_refused_with(value@, error),
            },
    {
        let len = value.as_str().as_bytes().len();
        if len < 1 {
            Err(UserFieldError::EmptyName)
        } else if len > MAX_NAME_LEN {
            Err(UserFieldError::NameToLong(value))
        } else {
            Ok(UserName(value))
        }
    }
}

impl vstd::std_specs::convert::TryFromSpecImpl<String> for UserName {
    open spec fn obeys_try_from_spec() -> bool {
        false
    }

    open spec fn try_from_spec(value: String) -> Result<Self, UserFieldError> {
        arbitrary()
    }
}

impl TryFrom<String> for UserName {
    type Error = UserFieldError;

    fn try_from(value: String) -> (res: Result<Self, Self::Error>)
        ensures
            match res {
                Ok(name) => valid_name(value@) && name@ == value@,
                Err(error) => !valid_name(value@) && name_refused_with(value@, error),
            },
    {
        UserName::validate(value)
    }
}

impl vstd::std_specs::convert::TryFromSpecImpl<&str> for UserName {
    open spec fn obeys_try_from_spec() -> bool {
        false
    }

    open spec fn try_from_spec(value: &str) -> Result<Self, UserFieldError> {
        arbitrary()
    }
}

impl TryFrom<&str> for UserName {
    type Error = UserFieldError;

    fn try_from(value: &str) -> (res: Result<Self, Self::Error>)
        ensures
            match res {
                Ok(name) => valid_name(value@) && name@ == value@,
                Err(error) => !valid_name(value@) && name_refused_with(value@, error),
            },
    {
        UserName::validate(value.to_owned())
    }
}

impl vstd::std_specs::convert::TryFromSpecImpl<&String> for UserName {
    open spec fn obeys_try_from_spec() -> bool {
        false
    }

    open spec fn try_from_spec(value: &String) -> Result<Self, UserFieldError> {
        arbitrary()
    }
}

impl TryFrom<&String> for UserName {
    type Error = UserFieldError;

    fn try_from(value: &String) -> (res: Result<Self, Self::Error>)
        ensures
            match res {
                Ok(name) => valid_name(value@) && name@ == value@,
                Err(error) => !valid_name(value@) && name_refused_with(value@, error),
            },
    {
        UserName::validate(value.clone())
    }
}

impl ValueType<String> for UserName {
    /// The text of the name, which is one that a user can have.
    fn value(&self) -> (text: String)
        ensures
            text@ == self@,
            valid_name(self@),
    {
        proof {
            use_type_invariant(self);
        }
        self.0.clone()
    }
}

/// What a user stands for: the id, the name, and the brands of the guitars.
pub struct UserView {
    pub id: UserId,
    pub name: Seq<char>,
    pub guitars: Set<Seq<char>>,
}

/// The brands of `guitars`.
pub open spec fn brands(guitars: Seq<Guitar>) -> Set<Seq<char>> {
    Set::new(|brand: Seq<char>| exists|i: int| 0 <= i < guitars.len() && (#[trigger] guitars[i])@ == brand)
}

#[derive(Debug, PartialEq, Eq)]
pub struct User {
    pub id: UserId,
    pub name: UserName,
    pub guitars: Vec<Guitar>,
}

impl View for User {
    type V = UserView;

    open spec fn view(&self) -> UserView {
        UserView { id: self.id, name: self.name@, guitars: brands(self.guitars@) }
    }
}

/// Clones of `guitars`, in order.
fn clone_guitars(guitars: &Vec<Guitar>) -> (copies: Vec<Guitar>)
    ensures
        copies@ == guitars@,
{
    let mut copies: Vec<Guitar> = Vec::new();
    let mut i: usize = 0;
    while i < guitars.len()
        invariant
            i <= guitars@.len(),
            copies@ == guitars@.take(i as int),
        decreases guitars@.len() - i,
    {
        copies.push(guitars[i].clone());
        proof {
            assert(copies@ =~= guitars@.take(i as int + 1));
        }
        i = i + 1;
    }
    proof {
        assert(guitars@.take(i as int) =~= guitars@);
    }
    copies
}

impl Clone for User {
    fn clone(&self) -> (copy: Self)
        ensures
            copy@ == self@,
            copy.guitars@ == self.guitars@,
    {
        User { id: self.id, name: self.name.clone(), guitars: clone_guitars(&self.guitars) }
    }
}

impl CloneKeepsView for User {
    proof fn lemma_clone_keeps_view(a: Self, b: Self) {
    }
}

impl User {
    /// A user without guitars.
    pub fn new(id: UserId, name: UserName) -> (user: Self)
        ensures
            user@ == (UserView { id, name: name@, guitars: Set::empty() }),
            user.id == id,
            user.name == name,
            user.guitars@.len() == 0,
    {
        let user = Self { id, name, guitars: Vec::new() };
        proof {
            assert(brands(user.guitars@) =~= Set::<Seq<char>>::empty());
        }
        user
    }

    /// Whether the user has a guitar of the brand of `guitar`.
    pub fn has_guitar(&self, guitar: &Guitar) -> (has: bool)
        ensures
            has == self@.guitars.contains(guitar@),
    {
        let mut i: usize = 0;
        while i < self.guitars.len()
            invariant
                i <= self.guitars@.len(),
                forall|j: int| 0 <= j < i ==> (#[trigger] self.guitars@[j])@ != guitar@,
            decreases self.guitars@.len() - i,
        {
            if self.guitars[i].brand == guitar.brand {
                return true;
            }
            i = i + 1;
        }
        false
    }
}

/// What the state of the users stands for: the users, by their ids.
pub type UserDeciderStateView = Map<UserId, UserView>;

/// The users, by their ids.
#[derive(Debug, PartialEq, Eq)]
pub struct UserDeciderState {
    pub users: HashMap<UserId, User>,
}

impl View for UserDeciderState {
    type V = Map<UserId, UserView>;

    open spec fn view(&self) -> Map<UserId, UserView> {
        self.users@.map_values(|user: User| user@)
    }
}

impl Clone for UserDeciderState {
    fn clone(&self) -> (copy: Self)
        ensures
            copy@ == self@,
    {
        UserDeciderState { users: self.users.clone() }
    }
}

impl CloneKeepsView for UserDeciderState {
    proof fn lemma_clone_keeps_view(a: Self, b: Self) {
    }
}

impl UserDeciderState {
    pub fn new(users: HashMap<UserId, User>) -> (state: Self)
        ensures
            state.users == users,
    {
        Self::default().set_users(users)
    }

    /// This state, with `users` in the place of its users.
    pub fn set_users(&self, users: HashMap<UserId, User>) -> (state: Self)
        ensures
            state.users == users,
    {
        Self { users }
    }
}

impl Default for UserDeciderState {
    fn default() -> (state: Self)
        ensures
            state@ == Map::<UserId, UserView>::empty(),
    {
        let state = Self { users: HashMap::new() };
        proof {
            assert(state@ =~= Map::<UserId, UserView>::empty());
        }
        state
    }
}

#[derive(Debug)]
pub enum UserCommand {
    AddUser(UnvalidatedUserName),
    UpdateUserName(UserId, UnvalidatedUserName),
    AddGuitar(UserId, Guitar),
}

#[derive(Debug, PartialEq, Eq)]
pub enum UserEvent {
    UserAdded(User),
    UserNameUpdated(UserId, UserName),
    UserGuitarAdded(UserId, Guitar),
}

/// What an event about a user stands for.
pub enum UserEventView {
    UserAdded(UserView),
    UserNameUpdated(UserId, Seq<char>),
    UserGuitarAdded(UserId, Seq<char>),
}

impl View for UserEvent {
    type V = UserEventView;

    open spec fn view(&self) -> UserEventView {
        match self {
            UserEvent::UserAdded(user) => UserEventView::UserAdded(user@),
            UserEvent::UserNameUpdated(id, name) => UserEventView::UserNameUpdated(*id, name@),
            UserEvent::UserGuitarAdded(id, guitar) => UserEventView::UserGuitarAdded(*id, guitar@),
        }
    }
}

impl Clone for UserEvent {
    fn clone(&self) -> (copy: Self)
        ensures
            copy@ == self@,
    {
        match self {
            UserEvent::UserAdded(user) => UserEvent::UserAdded(user.clone()),
            UserEvent::UserNameUpdated(id, name) => UserEvent::UserNameUpdated(*id, name.clone()),
            UserEvent::UserGuitarAdded(id, guitar) => UserEvent::UserGuitarAdded(
                *id,
                guitar.clone(),
            ),
        }
    }
}

impl CloneKeepsView for UserEvent {
    proof fn lemma_clone_keeps_view(a: Self, b: Self) {
    }
}

impl Event for UserEvent {
    type EntityId = UserId;

    open spec fn spec_event_type(event: UserEventView) -> Seq<char> {
        match event {
            UserEventView::UserAdded(_) => "UserAdded"@,
            UserEventView::UserNameUpdated(_, _) => "UserNameUpdated"@,
            UserEventView::UserGuitarAdded(_, _) => "UserGuitarAdded"@,
        }
    }

    open spec fn spec_id(event: UserEventView) -> UserId {
        match event {
            UserEventView::UserAdded(user) => user.id,
            UserEventView::UserNameUpdated(id, _) => id,
            UserEventView::UserGuitarAdded(id, _) => id,
        }
    }

    fn event_type(&self) -> (tag: String) {
        match self {
            UserEvent::UserAdded(_) => String::from_str("UserAdded"),
            UserEvent::UserNameUpdated(_, _) => String::from_str("UserNameUpdated"),
            UserEvent::UserGuitarAdded(_, _) => String::from_str("UserGuitarAdded"),
        }
    }

    fn get_id(&self) -> (id: UserId) {
        match self {
            UserEvent::UserAdded(user) => user.id,
            UserEvent::UserNameUpdated(id, _) => *id,
            UserEvent::UserGuitarAdded(id, _) => *id,
        }
    }
}

impl StreamIdFromEvent<UserEvent> for String {
    open spec fn spec_stream_id(id: UserId) -> Seq<char> {
        spec_decimal(id as nat)
    }

    fn event_entity_id_into(id: UserId) -> (stream_id: String) {
        usize_to_decimal(id)
    }
}

#[derive(Debug)]
pub enum UserDeciderError {
    UserField(UserFieldError),
    NotFound(UserId),
    AlreadyHasGuitar(Guitar),
}

/// The state that follows `state` once `event` has happened. An event about
/// a user who is not there changes nothing.
pub open spec fn user_evolve(state: Map<UserId, UserView>, event: UserEventView) -> Map<
    UserId,
    UserView,
> {
    match event {
        UserEventView::UserAdded(user) => state.insert(user.id, user),
        UserEventView::UserNameUpdated(id, name) => if state.contains_key(id) {
            state.insert(id, UserView { name, ..state[id] })
        } else {
            state
        },
        UserEventView::UserGuitarAdded(id, guitar) => if state.contains_key(id) {
            state.insert(id, UserView { guitars: state[id].guitars.insert(guitar), ..state[id] })
        } else {
            state
        },
    }
}

/// Whether `outcome` is what the user decider answers to `cmd` in `state`
/// where new users get the id `new_id`.
pub open spec fn user_decides(
    new_id: UserId,
    state: Map<UserId, UserView>,
    cmd: UserCommand,
    outcome: Result<Seq<UserEventView>, UserDeciderError>,
) -> bool {
    match cmd {
        UserCommand::AddUser(name) => match outcome {
            Ok(events) => valid_name(name@) && events == seq![
                UserEventView::UserAdded(
                    UserView { id: new_id, name: name@, guitars: Set::empty() },
                ),
            ],
            Err(UserDeciderError::UserField(error)) => !valid_name(name@) && name_refused_with(
                name@,
                error,
            ),
            Err(_) => false,
        },
        UserCommand::UpdateUserName(id, name) => match outcome {
            Ok(events) => valid_name(name@) && events == seq![
                UserEventView::UserNameUpdated(id, name@),
            ],
            Err(UserDeciderError::UserField(error)) => !valid_name(name@) && name_refused_with(
                name@,
                error,
            ),
            Err(_) => false,
        },
        UserCommand::AddGuitar(id, guitar) => match outcome {
            Ok(events) => state.contains_key(id) && !state[id].guitars.contains(guitar@) && events
                == seq![UserEventView::UserGuitarAdded(id, guitar@)],
            Err(UserDeciderError::NotFound(missing)) => !state.contains_key(id) && missing == id,
            Err(UserDeciderError::AlreadyHasGuitar(owned)) => state.contains_key(id)
                && state[id].guitars.contains(guitar@) && owned == guitar,
            Err(_) => false,
        },
    }
}

#[derive(Debug)]
pub struct UserDecider;

impl UserDecider {
    /// What `cmd` brings about in `state`, where a new user gets the id `new_id`.
    fn decide_with_id(new_id: UserId, state: &UserDeciderState, cmd: &UserCommand) -> (outcome:
        Result<Vec<UserEvent>, UserDeciderError>)
        ensures
            user_decides(new_id, state@, *cmd, crate::decider::outcome_view(outcome)),
    {
        match cmd {
            UserCommand::AddUser(user_name) => {
                let name = match UserName::validate(user_name.clone()) {
                    Ok(name) => name,
                    Err(e) => {
                        return Err(UserDeciderError::UserField(e));
                    },
                };
                let mut events = Vec::new();
                events.push(UserEvent::UserAdded(User::new(new_id, name)));
                proof {
                    assert(views(events@) =~= seq![
                        UserEventView::UserAdded(
                            UserView { id: new_id, name: user_name@, guitars: Set::empty() },
                        ),
                    ]);
                }
                Ok(events)
            },
            UserCommand::UpdateUserName(user_id, user_name) => {
                let name = match UserName::validate(user_name.clone()) {
                    Ok(name) => name,
                    Err(e) => {
                        return Err(UserDeciderError::UserField(e));
                    },
                };
                let mut events = Vec::new();
                events.push(UserEvent::UserNameUpdated(*user_id, name));
                proof {
                    assert(views(events@) =~= seq![
                        UserEventView::UserNameUpdated(*user_id, user_name@),
                    ]);
                }
                Ok(events)
            },
            UserCommand::AddGuitar(user_id, guitar) => {
                let user = match state.users.get(user_id) {
                    Some(user) => user,
                    None => {
                        return Err(UserDeciderError::NotFound(*user_id));
                    },
                };
                if user.has_guitar(guitar) {
                    Err(UserDeciderError::AlreadyHasGuitar(guitar.clone()))
                } else {
                    let mut events = Vec::new();
                    events.push(UserEvent::UserGuitarAdded(*user_id, guitar.clone()));
                    proof {
                        assert(views(events@) =~= seq![
                            UserEventView::UserGuitarAdded(*user_id, guitar@),
                        ]);
                    }
                    Ok(events)
                }
            },
        }
    }
}

impl Evolver for UserDecider {
    type State = UserDeciderState;

    type Evt = UserEvent;

    open spec fn spec_init() -> Map<UserId, UserView> {
        Map::empty()
    }

    open spec fn spec_evolve(state: Map<UserId, UserView>, event: UserEventView) -> Map<
        UserId,
        UserView,
    > {
        user_evolve(state, event)
    }

    fn evolve(state: UserDeciderState, event: &UserEvent) -> (next: UserDeciderState) {
        let mut state = state;
        let ghost before = state@;
        match event {
            UserEvent::UserAdded(user) => {
                state.users.insert(user.id, user.clone());
                proof {
                    assert(state@ =~= before.insert(user.id, user@));
                }
            },
            UserEvent::UserNameUpdated(user_id, user_name) => {
                match state.users.remove(user_id) {
                    Some(user) => {
                        let mut user = user;
                        user.name = user_name.clone();
                        state.users.insert(*user_id, user);
                        proof {
                            assert(state@ =~= before.insert(
                                *user_id,
                                UserView { name: user_name@, ..before[*user_id] },
                            ));
                        }
                    },
                    None => {
                        proof {
                            assert(state@ =~= before);
                        }
                    },
                }
            },
            UserEvent::UserGuitarAdded(user_id, guitar) => {
                match state.users.remove(user_id) {
                    Some(user) => {
                        let mut user = user;
                        let ghost owned = user.guitars@;
                        if !user.has_guitar(guitar) {
                            user.guitars.push(guitar.clone());
                        }
                        proof {
                            assert(brands(user.guitars@) =~= brands(owned).insert(guitar@)) by {
                                assert forall|brand: Seq<char>|
                                    brands(user.guitars@).contains(brand) <==> (brand == guitar@
                                        || brands(owned).contains(brand)) by {
                                    if brands(owned).contains(brand) {
                                        let i = choose|i: int|
                                            0 <= i < owned.len() && (#[trigger] owned[i])@ == brand;
                                        assert(user.guitars@[i]@ == brand);
                                    }
                                    if brand == guitar@ && user.guitars@.len() > owned.len() {
                                        assert(user.guitars@[owned.len() as int]@ == brand);
                                    }
                                }
                            }
                        }
                        state.users.insert(*user_id, user);
                        proof {
                            assert(state@ =~= before.insert(
                                *user_id,
                                UserView {
                                    guitars: before[*user_id].guitars.insert(guitar@),
                                    ..before[*user_id]
                                },
                            ));
                        }
                    },
                    None => {
                        proof {
                            assert(state@ =~= before);
                        }
                    },
                }
            },
        }
        state
    }

    fn init() -> (state: UserDeciderState) {
        UserDeciderState::default()
    }
}

impl Decider for UserDecider {
    type Cmd = UserCommand;

    type DomainErr = UserDeciderError;

    /// New users get the id 1.
    open spec fn decides(
        state: Map<UserId, UserView>,
        cmd: UserCommand,
        outcome: Result<Seq<UserEventView>, UserDeciderError>,
    ) -> bool {
        user_decides(1, state, cmd, outcome)
    }

    fn decide(state: &UserDeciderState, cmd: &UserCommand) -> (outcome: Result<
        Vec<UserEvent>,
        UserDeciderError,
    >) {
        Self::decide_with_id(1, state, cmd)
    }
}

impl DeciderWithContext for UserDecider {
    type Ctx = UserDeciderCtx;

    type Cmd = UserCommand;

    type DomainErr = UserDeciderError;

    /// New users get an id out of the sequence in `ctx`.
    open spec fn decides(
        ctx: UserDeciderCtx,
        state: Map<UserId, UserView>,
        cmd: UserCommand,
        outcome: Result<Seq<UserEventView>, UserDeciderError>,
    ) -> bool {
        exists|new_id: UserId| #[trigger] user_decides(new_id, state, cmd, outcome)
    }

    fn decide(ctx: &UserDeciderCtx, state: &UserDeciderState, cmd: &UserCommand) -> (outcome:
        Result<Vec<UserEvent>, UserDeciderError>) {
        match cmd {
            UserCommand::AddUser(_) => {
                let IdGen(id) = ctx.pull();
                Self::decide_with_id(id, state, cmd)
            },
            _ => Self::decide_with_id(0, state, cmd),
        }
    }
}

impl LoadDecideAppend for UserDecider {
    type Decide = Self;
}

impl DecideEvolveWithCommandResponse for UserDecider {
    type Decide = Self;
}

impl ReifyDecideSave for UserDecider {
    type Decide = Self;
}

impl StateFromEventRepository for UserDeciderState {
    type Ev = UserDecider;
}

} // verus!
