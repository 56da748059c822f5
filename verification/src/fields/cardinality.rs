//! Hemisphere indicator fields.

use vstd::prelude::*;
use crate::errors::DecodeError;
use crate::errors::DecodeErrorV;
use crate::tokens::spec_scan_token;
use crate::tokens::scan_token;

verus! {

/// The North/South hemisphere indicator of a latitude.
#[derive(Debug, PartialEq, Eq, Structural, Clone, Copy)]
pub enum NorthSouth {
    North,
    South,
}

/// The East/West hemisphere indicator of a longitude.
#[derive(Debug, PartialEq, Eq, Structural, Clone, Copy)]
pub enum EastWest {
    East,
    West,
}

/// What the mandatory North/South field yields: `N` or `S`, anything else
/// (an empty field included) is malformed.
pub open spec fn spec_parse_north_south_indicator(s: Seq<u8>, c: int) -> Result<
    (int, NorthSouth),
    DecodeErrorV,
> {
    match spec_scan_token(s, c) {
        Err(e) => Err(e),
        Ok((c2, t)) => if t =~= seq![78u8] {
            Ok((c2, NorthSouth::North))
        } else if t =~= seq![83u8] {
            Ok((c2, NorthSouth::South))
        } else {
            Err(DecodeErrorV::MalformedField(c, t))
        },
    }
}

/// Consumes the mandatory North/South indicator field.
pub fn parse_north_south_indicator(s: &[u8], c: usize) -> (r: Result<
    (usize, NorthSouth),
    DecodeError,
>)
    requires
        c <= s@.len() + 1,
        s@.len() < usize::MAX,
    ensures
        (match r {
            Ok((c2, v)) => spec_parse_north_south_indicator(s@, c as int) == Ok::<
                _,
                DecodeErrorV,
            >((c2 as int, v)),
            Err(e) => spec_parse_north_south_indicator(s@, c as int) == Err::<
                (int, NorthSouth),
                _,
            >(e@),
        }),
        (match r {
            Ok(p) => p.0 <= s@.len() + 1,
            _ => true,
        }),
{
    let (c2, t) = match scan_token(s, c) {
        Ok(x) => x,
        Err(e) => {
            return Err(e);
        },
    };
    if t.len() == 1 && t[0] == 78 {
        assert(t@ =~= seq![78u8]);
        Ok((c2, NorthSouth::North))
    } else if t.len() == 1 && t[0] == 83 {
        assert(t@ =~= seq![83u8]);
        Ok((c2, NorthSouth::South))
    } else {
        Err(DecodeError::MalformedField(c, t))
    }
}

/// What the mandatory East/West field yields: `E` or `W`, anything else is
/// malformed.
pub open spec fn spec_parse_east_west_indicator(s: Seq<u8>, c: int) -> Result<
    (int, EastWest),
    DecodeErrorV,
> {
    match spec_scan_token(s, c) {
        Err(e) => Err(e),
        Ok((c2, t)) => if t =~= seq![69u8] {
            Ok((c2, EastWest::East))
        } else if t =~= seq![87u8] {
            Ok((c2, EastWest::West))
        } else {
            Err(DecodeErrorV::MalformedField(c, t))
        },
    }
}

/// Consumes the mandatory East/West indicator field.
pub fn parse_east_west_indicator(s: &[u8], c: usize) -> (r: Result<(usize, EastWest), DecodeError>)
    requires
        c <= s@.len() + 1,
        s@.len() < usize::MAX,
    ensures
        (match r {
            Ok((c2, v)) => spec_parse_east_west_indicator(s@, c as int) == Ok::<_, DecodeErrorV>((
                c2 as int,
                v,
            )),
            Err(e) => spec_parse_east_west_indicator(s@, c as int) == Err::<(int, EastWest), _>(
                e@,
            ),
        }),
        (match r {
            Ok(p) => p.0 <= s@.len() + 1,
            _ => true,
        }),
{
    let (c2, t) = match scan_token(s, c) {
        Ok(x) => x,
        Err(e) => {
            return Err(e);
        },
    };
    if t.len() == 1 && t[0] == 69 {
        assert(t@ =~= seq![69u8]);
        Ok((c2, EastWest::East))
    } else if t.len() == 1 && t[0] == 87 {
        assert(t@ =~= seq![87u8]);
        Ok((c2, EastWest::West))
    } else {
        Err(DecodeError::MalformedField(c, t))
    }
}

/// What the optional North/South field yields: absence for an empty field.
pub open spec fn spec_parse_maybe_north_south_indicator(s: Seq<u8>, c: int) -> Result<
    (int, Option<NorthSouth>),
    DecodeErrorV,
> {
    match spec_scan_token(s, c) {
        Err(e) => Err(e),
        Ok((c2, t)) => if t.len() == 0 {
            Ok((c2, None))
        } else if t =~= seq![78u8] {
            Ok((c2, Some(NorthSouth::North)))
        } else if t =~= seq![83u8] {
            Ok((c2, Some(NorthSouth::South)))
        } else {
            Err(DecodeErrorV::MalformedField(c, t))
        },
    }
}

/// Consumes the optional North/South indicator field.
pub fn parse_maybe_north_south_indicator(s: &[u8], c: usize) -> (r: Result<
    (usize, Option<NorthSouth>),
    DecodeError,
>)
    requires
        c <= s@.len() + 1,
        s@.len() < usize::MAX,
    ensures
        (match r {
            Ok((c2, v)) => spec_parse_maybe_north_south_indicator(s@, c as int) == Ok::<
                _,
                DecodeErrorV,
            >((c2 as int, v)),
            Err(e) => spec_parse_maybe_north_south_indicator(s@, c as int) == Err::<
                (int, Option<NorthSouth>),
                _,
            >(e@),
        }),
        (match r {
            Ok(p) => p.0 <= s@.len() + 1,
            _ => true,
        }),
{
    let (c2, t) = match scan_token(s, c) {
        Ok(x) => x,
        Err(e) => {
            return Err(e);
        },
    };
    if t.len() == 0 {
        Ok((c2, None))
    } else if t.len() == 1 && t[0] == 78 {
        assert(t@ =~= seq![78u8]);
        Ok((c2, Some(NorthSouth::North)))
    } else if t.len() == 1 && t[0] == 83 {
        assert(t@ =~= seq![83u8]);
        Ok((c2, Some(NorthSouth::South)))
    } else {
        Err(DecodeError::MalformedField(c, t))
    }
}

/// What the optional East/West field yields: absence for an empty field.
pub open spec fn spec_parse_maybe_east_west_indicator(s: Seq<u8>, c: int) -> Result<
    (int, Option<EastWest>),
    DecodeErrorV,
> {
    match spec_scan_token(s, c) {
        Err(e) => Err(e),
        Ok((c2, t)) => if t.len() == 0 {
            Ok((c2, None))
        } else if t =~= seq![69u8] {
            Ok((c2, Some(EastWest::East)))
        } else if t =~= seq![87u8] {
            Ok((c2, Some(EastWest::West)))
        } else {
            Err(DecodeErrorV::MalformedField(c, t))
        },
    }
}

/// Consumes the optional East/West indicator field.
pub fn parse_maybe_east_west_indicator(s: &[u8], c: usize) -> (r: Result<
    (usize, Option<EastWest>),
    DecodeError,
>)
    requires
        c <= s@.len() + 1,
        s@.len() < usize::MAX,
    ensures
        (match r {
            Ok((c2, v)) => spec_parse_maybe_east_west_indicator(s@, c as int) == Ok::<
                _,
                DecodeErrorV,
            >((c2 as int, v)),
            Err(e) => spec_parse_maybe_east_west_indicator(s@, c as int) == Err::<
                (int, Option<EastWest>),
                _,
            >(e@),
        }),
        (match r {
            Ok(p) => p.0 <= s@.len() + 1,
            _ => true,
        }),
{
    let (c2, t) = match scan_token(s, c) {
        Ok(x) => x,
        Err(e) => {
            return Err(e);
        },
    };
    if t.len() == 0 {
        Ok((c2, None))
    } else if t.len() == 1 && t[0] == 69 {
        assert(t@ =~= seq![69u8]);
        Ok((c2, Some(EastWest::East)))
    } else if t.len() == 1 && t[0] == 87 {
        assert(t@ =~= seq![87u8]);
        Ok((c2, Some(EastWest::West)))
    } else {
        Err(DecodeError::MalformedField(c, t))
    }
}

} // verus!
