//! The origin of calls that a parachain makes.

use vstd::prelude::*;
use vstd::std_specs::convert::{FromSpecImpl, IntoSpec};

verus! {

/// The identifier of a parachain.
#[derive(Clone, Copy, Debug, PartialEq, Eq, Structural, Hash)]
pub struct ParaId(pub u32);

/// The error of a call whose origin is not the one that is asked for.
#[derive(Clone, Copy, Debug, PartialEq, Eq, Structural)]
pub struct BadOrigin;

/// Origin for the parachains.
#[derive(Clone, Copy, Debug, PartialEq, Eq, Structural)]
pub enum Origin {
    /// It comes from a parachain.
    Parachain(ParaId),
}

impl From<u32> for Origin {
    fn from(id: u32) -> (origin: Origin) {
        Origin::Parachain(ParaId(id))
    }
}

impl FromSpecImpl<u32> for Origin {
    open spec fn obeys_from_spec() -> bool {
        true
    }

    open spec fn from_spec(id: u32) -> Origin {
        Origin::Parachain(ParaId(id))
    }
}

/// The parachain that an outer origin stands for, once the outer origin
/// has been asked whether it is an origin of this module.
pub open spec fn parachain_of<OuterOrigin>(converted: Result<Origin, OuterOrigin>) -> Result<
    ParaId,
    BadOrigin,
> {
    match converted {
        Ok(Origin::Parachain(id)) => Ok(id),
        Err(_) => Err(BadOrigin),
    }
}

/// The identifier of the parachain that `converted` names, or `BadOrigin`
/// where the outer origin was none of this module.
pub fn ensure_parachain_from<OuterOrigin>(converted: Result<Origin, OuterOrigin>) -> (parachain:
    Result<ParaId, BadOrigin>)
    ensures
        parachain == parachain_of(converted),
{
    match converted {
        Ok(Origin::Parachain(id)) => Ok(id),
        _ => Err(BadOrigin),
    }
}

/// Ensures that the origin `o` represents a parachain.
///
/// Returns the identifier of the parachain that made the call, or
/// `BadOrigin`. Which of the two depends on the conversion that the outer
/// origin brings along: the result is [`parachain_of`] what the
/// conversion yields.
pub fn ensure_parachain<OuterOrigin>(o: OuterOrigin) -> (parachain: Result<ParaId, BadOrigin>) where
    OuterOrigin: Into<Result<Origin, OuterOrigin>>,

    ensures
        <OuterOrigin as IntoSpec<Result<Origin, OuterOrigin>>>::obeys_into_spec() ==> parachain
            == parachain_of(
            <OuterOrigin as IntoSpec<Result<Origin, OuterOrigin>>>::into_spec(o),
        ),
{
    ensure_parachain_from(o.into())
}

/// The configuration of the origin module.
pub trait Config {

}

} // verus!
