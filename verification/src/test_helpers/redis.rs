//! The events about users as records of a Redis stream.

use crate::decider::Event;
use crate::decimal::{spec_decimal, usize_to_decimal};
use crate::repository::redis::versioned_event::StreamModelDTO;
use crate::repository::WithFineGrainedStreamId;
use crate::test_helpers::deciders::user::{
    brands, Guitar, User, UserEvent, UserEventView, UserFieldError, UserId, UserName, UserView,
    valid_name,
};
use crate::test_helpers::ValueType;
use vstd::prelude::*;

verus! {

#[derive(Debug, Clone, Copy, PartialEq, Eq, Structural)]
pub enum UserEventTypeDTO {
    UserAdded,
    UserNameUpdated,
    UserGuitarAdded,
}

#[derive(Debug, PartialEq, Eq, Hash)]
pub struct GuitarDTO {
    pub brand: String,
}

#[derive(Debug, PartialEq, Eq)]
pub struct UserDTO {
    pub id: usize,
    pub name: String,
    pub guitars: Vec<GuitarDTO>,
}

/// One event about a user as a record: the user it is about, the kind of
/// event, and the one field that an event of that kind needs.
#[derive(Debug)]
pub struct TestUserEventDTO {
    pub user_id: UserId,
    pub event_type: UserEventTypeDTO,
    pub user: Option<UserDTO>,
    pub user_name: Option<String>,
    pub guitar: Option<GuitarDTO>,
}

/// Why a record is no event. The text is for people to read.
#[derive(Debug)]
pub struct TestUserDTOErr(pub String);

impl WithFineGrainedStreamId for TestUserEventDTO {
    open spec fn spec_fine_grained_id(&self) -> Seq<char> {
        spec_decimal(self.user_id as nat)
    }

    fn to_fine_grained_id(&self) -> (id: String) {
        usize_to_decimal(self.user_id)
    }
}

/// The brands of the guitars of a record.
pub open spec fn dto_brands(guitars: Seq<GuitarDTO>) -> Seq<Seq<char>> {
    guitars.map_values(|guitar: GuitarDTO| guitar.brand@)
}

/// The brands of guitars, in order.
pub open spec fn guitar_brands(guitars: Seq<Guitar>) -> Seq<Seq<char>> {
    guitars.map_values(|guitar: Guitar| guitar.brand@)
}

/// The user that a record stands for.
pub open spec fn user_of_dto(dto: UserDTO) -> UserView {
    UserView { id: dto.id, name: dto.name@, guitars: dto_brands(dto.guitars@).to_set() }
}

/// The event that a record stands for, if it has the field that an event of
/// its kind needs, and the name in it is one that a user can have.
pub open spec fn event_of_dto(dto: TestUserEventDTO) -> Option<UserEventView> {
    match dto.event_type {
        UserEventTypeDTO::UserAdded => match dto.user {
            Some(user) => if valid_name(user.name@) {
                Some(UserEventView::UserAdded(user_of_dto(user)))
            } else {
                None
            },
            None => None,
        },
        UserEventTypeDTO::UserNameUpdated => match dto.user_name {
            Some(name) => if valid_name(name@) {
                Some(UserEventView::UserNameUpdated(dto.user_id, name@))
            } else {
                None
            },
            None => None,
        },
        UserEventTypeDTO::UserGuitarAdded => match dto.guitar {
            Some(guitar) => Some(UserEventView::UserGuitarAdded(dto.user_id, guitar.brand@)),
            None => None,
        },
    }
}

/// The brands of a sequence of guitars are the brands of the user who has them.
pub proof fn lemma_brands_as_set(guitars: Seq<Guitar>)
    ensures
        guitar_brands(guitars).to_set() == brands(guitars),
{
    assert forall|brand: Seq<char>|
        guitar_brands(guitars).to_set().contains(brand) <==> brands(guitars).contains(brand) by {
        if guitar_brands(guitars).contains(brand) {
            let i = choose|i: int|
                0 <= i < guitar_brands(guitars).len() && guitar_brands(guitars)[i] == brand;
            assert(guitars[i]@ == brand);
        }
        if brands(guitars).contains(brand) {
            let i = choose|i: int| 0 <= i < guitars.len() && (#[trigger] guitars[i])@ == brand;
            assert(guitar_brands(guitars)[i] == brand);
        }
    }
    assert(guitar_brands(guitars).to_set() =~= brands(guitars));
}

impl vstd::std_specs::convert::FromSpecImpl<Guitar> for GuitarDTO {
    open spec fn obeys_from_spec() -> bool {
        true
    }

    open spec fn from_spec(value: Guitar) -> GuitarDTO {
        GuitarDTO { brand: value.brand }
    }
}

impl From<Guitar> for GuitarDTO {
    fn from(value: Guitar) -> (dto: Self) {
        Self { brand: value.brand }
    }
}

impl vstd::std_specs::convert::FromSpecImpl<GuitarDTO> for Guitar {
    open spec fn obeys_from_spec() -> bool {
        true
    }

    open spec fn from_spec(value: GuitarDTO) -> Guitar {
        Guitar { brand: value.brand }
    }
}

impl From<GuitarDTO> for Guitar {
    fn from(value: GuitarDTO) -> (guitar: Self) {
        Self { brand: value.brand }
    }
}

impl vstd::std_specs::convert::FromSpecImpl<String> for TestUserDTOErr {
    open spec fn obeys_from_spec() -> bool {
        true
    }

    open spec fn from_spec(text: String) -> TestUserDTOErr {
        TestUserDTOErr(text)
    }
}

impl From<String> for TestUserDTOErr {
    fn from(text: String) -> (error: Self) {
        Self(text)
    }
}

/// The guitars as records, in order.
fn guitars_into_dto(guitars: Vec<Guitar>) -> (dtos: Vec<GuitarDTO>)
    ensures
        dto_brands(dtos@) == guitar_brands(guitars@),
{
    let ghost all = guitars@;
    let mut dtos: Vec<GuitarDTO> = Vec::new();
    for guitar in it: guitars
        invariant
            all == it.seq(),
            dtos@.len() == it.index(),
            forall|k: int| 0 <= k < dtos@.len() ==> (#[trigger] dtos@[k]).brand@ == all[k].brand@,
    {
        dtos.push(GuitarDTO { brand: guitar.brand });
    }
    proof {
        assert(dto_brands(dtos@) =~= guitar_brands(all));
    }
    dtos
}

/// The records as guitars, in order.
fn guitars_from_dto(dtos: Vec<GuitarDTO>) -> (guitars: Vec<Guitar>)
    ensures
        guitar_brands(guitars@) == dto_brands(dtos@),
{
    let ghost all = dtos@;
    let mut guitars: Vec<Guitar> = Vec::new();
    for dto in it: dtos
        invariant
            all == it.seq(),
            guitars@.len() == it.index(),
            forall|k: int|
                0 <= k < guitars@.len() ==> (#[trigger] guitars@[k]).brand@ == all[k].brand@,
    {
        guitars.push(Guitar { brand: dto.brand });
    }
    proof {
        assert(guitar_brands(guitars@) =~= dto_brands(all));
    }
    guitars
}

impl vstd::std_specs::convert::FromSpecImpl<User> for UserDTO {
    open spec fn obeys_from_spec() -> bool {
        false
    }

    open spec fn from_spec(value: User) -> UserDTO {
        arbitrary()
    }
}

impl From<User> for UserDTO {
    fn from(value: User) -> (dto: Self)
        ensures
            user_of_dto(dto) == value@,
            valid_name(dto.name@),
    {
        proof {
            lemma_brands_as_set(value.guitars@);
        }
        Self { id: value.id, name: value.name.value(), guitars: guitars_into_dto(value.guitars) }
    }
}

impl vstd::std_specs::convert::TryFromSpecImpl<UserDTO> for User {
    open spec fn obeys_try_from_spec() -> bool {
        false
    }

    open spec fn try_from_spec(value: UserDTO) -> Result<Self, UserFieldError> {
        arbitrary()
    }
}

impl TryFrom<UserDTO> for User {
    type Error = UserFieldError;

    /// The user that a record stands for, if a user can have the name in it.
    fn try_from(value: UserDTO) -> (res: Result<Self, Self::Error>)
        ensures
            match res {
                Ok(user) => valid_name(value.name@) && user@ == user_of_dto(value),
                Err(error) => !valid_name(value.name@)
                    && crate::test_helpers::deciders::user::name_refused_with(value.name@, error),
            },
    {
        let name = match UserName::validate(value.name) {
            Ok(name) => name,
            Err(e) => {
                return Err(e);
            },
        };
        let guitars = guitars_from_dto(value.guitars);
        proof {
            lemma_brands_as_set(guitars@);
        }
        Ok(User { id: value.id, name, guitars })
    }
}

/// Says of `model` that it lacks the field `field`, with `format!`. The text
/// is for people to read, and nothing is stated of it.
#[verifier::external_body]
fn describe_missing(field: &str, model: &TestUserEventDTO) -> (text: String) {
    format!("Redis UserEventDTO invalid: missing Some({}), {:?}", field, model)
}

/// Says that a record holds the name that `error` refuses, with `format!`.
/// The text is for people to read, and nothing is stated of it.
#[verifier::external_body]
fn describe_invalid(error: &UserFieldError) -> (text: String) {
    format!("Redis UserEventDTO invalid: {:?}", error)
}

impl StreamModelDTO<TestUserEventDTO, TestUserDTOErr> for UserEvent {
    /// The record of an event: it stands for the event.
    fn into_dto(self) -> (dto: TestUserEventDTO)
        ensures
            dto.user_id == UserEvent::spec_id(self@),
            event_of_dto(dto) == Some(self@),
            match self {
                UserEvent::UserAdded(_) => dto.event_type is UserAdded && dto.user is Some
                    && dto.user_name is None && dto.guitar is None,
                UserEvent::UserNameUpdated(_, _) => dto.event_type is UserNameUpdated
                    && dto.user is None && dto.user_name is Some && dto.guitar is None,
                UserEvent::UserGuitarAdded(_, _) => dto.event_type is UserGuitarAdded
                    && dto.user is None && dto.user_name is None && dto.guitar is Some,
            },
    {
        match self {
            UserEvent::UserAdded(user) => TestUserEventDTO {
                user_id: user.id,
                event_type: UserEventTypeDTO::UserAdded,
                user: Some(UserDTO::from(user)),
                guitar: None,
                user_name: None,
            },
            UserEvent::UserNameUpdated(user_id, user_name) => TestUserEventDTO {
                user_id,
                event_type: UserEventTypeDTO::UserNameUpdated,
                user: None,
                user_name: Some(user_name.value()),
                guitar: None,
            },
            UserEvent::UserGuitarAdded(user_id, guitar) => TestUserEventDTO {
                user_id,
                event_type: UserEventTypeDTO::UserGuitarAdded,
                user: None,
                user_name: None,
                guitar: Some(GuitarDTO::from(guitar)),
            },
        }
    }

    /// The event that a record stands for, if it stands for one.
    fn try_from_dto(model: TestUserEventDTO) -> (res: Result<Self, TestUserDTOErr>)
        ensures
            match res {
                Ok(event) => event_of_dto(model) == Some(event@),
                Err(_) => event_of_dto(model) is None,
            },
    {
        match model {
            TestUserEventDTO {
                event_type: UserEventTypeDTO::UserAdded,
                user: Some(user),
                ..
            } => match User::try_from(user) {
                Ok(user) => Ok(UserEvent::UserAdded(user)),
                Err(e) => Err(TestUserDTOErr(describe_invalid(&e))),
            },
            TestUserEventDTO {
                event_type: UserEventTypeDTO::UserNameUpdated,
                user_id,
                user_name: Some(user_name),
                ..
            } => match UserName::validate(user_name) {
                Ok(name) => Ok(UserEvent::UserNameUpdated(user_id, name)),
                Err(e) => Err(TestUserDTOErr(describe_invalid(&e))),
            },
            TestUserEventDTO {
                event_type: UserEventTypeDTO::UserGuitarAdded,
                user_id,
                guitar: Some(guitar),
                ..
            } => Ok(UserEvent::UserGuitarAdded(user_id, Guitar::from(guitar))),
            incomplete => {
                let field = match incomplete.event_type {
                    UserEventTypeDTO::UserAdded => "User",
                    UserEventTypeDTO::UserNameUpdated => "UserName",
                    UserEventTypeDTO::UserGuitarAdded => "Guitar",
                };
                Err(TestUserDTOErr(describe_missing(field, &incomplete)))
            },
        }
    }
}

} // verus!
