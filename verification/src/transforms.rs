//! From the element of a reply to the values it stands for.

use vstd::prelude::*;
use vstd::string::StringExecFns;
use crate::dates::{parse_with_format, parsed_with_format};
use crate::error::Error;
use crate::models::nds_response::{partner_views, NdsResponse, NdsResponseView};
use crate::models::partner::{Partner, PartnerView};
use crate::rpser::text::{decimal_i32, parse_i32};
use crate::rpser::xml::{attr_or_empty, Tree, XmlElement};

verus! {

/// A value that can be read from the element of a reply.
pub trait FromElement: Sized {
    fn from_element(element: XmlElement) -> Result<Self, Error>;
}

/// The layout of a day followed by a time of day.
pub open spec fn day_and_time_format() -> Seq<char> {
    "%d.%m.%Y %H:%M:%S"@
}

/// The start of the day that `value` names as day, month and year with
/// dots, or `None` where it names none.
pub open spec fn day_start(value: Seq<char>) -> Option<chrono::NaiveDateTime> {
    parsed_with_format(value + " 00:00:00"@, day_and_time_format())
}

/// Which kind of text in a reply could not be read.
pub enum Flaw {
    /// A day.
    Date,
    /// A status number.
    Number,
}

/// The counterparty that an element of a reply stands for: its attributes
/// `INN` and `KPP` as they are, `DT` as a day and `State` as a number. The
/// day is read first.
pub open spec fn partner_of(tree: Tree) -> Result<PartnerView, Flaw> {
    match day_start(attr_or_empty(tree, "DT"@)) {
        None => Err(Flaw::Date),
        Some(dt) => match decimal_i32(attr_or_empty(tree, "State"@)) {
            None => Err(Flaw::Number),
            Some(state) => Ok(
                PartnerView {
                    inn: attr_or_empty(tree, "INN"@),
                    kpp: attr_or_empty(tree, "KPP"@),
                    dt,
                    state: state as int,
                },
            ),
        },
    }
}

/// The counterparties that a row of elements stands for, in their order; the
/// flaw of the first element that stands for none, if there is one.
pub open spec fn partners_of(elements: Seq<Tree>) -> Result<Seq<PartnerView>, Flaw>
    decreases elements.len(),
{
    if elements.len() == 0 {
        Ok(Seq::empty())
    } else {
        match partners_of(elements.drop_last()) {
            Err(flaw) => Err(flaw),
            Ok(partners) => match partner_of(elements.last()) {
                Err(flaw) => Err(flaw),
                Ok(partner) => Ok(partners.push(partner)),
            },
        }
    }
}

/// What the result element of a reply amounts to.
pub enum Answer {
    /// The service's answer.
    Report(NdsResponseView),
    /// The service refused, with this message.
    Refused(Seq<char>),
    /// A text in the reply could not be read.
    Flawed(Flaw),
}

/// What the result element of a reply amounts to: a refusal where its
/// attribute `errMsg` is not empty; else the two days `DTActFL` and
/// `DTActUL`, read in this order, and the counterparties its children stand
/// for.
pub open spec fn answer_of(tree: Tree) -> Answer {
    if attr_or_empty(tree, "errMsg"@).len() > 0 {
        Answer::Refused(attr_or_empty(tree, "errMsg"@))
    } else {
        match day_start(attr_or_empty(tree, "DTActFL"@)) {
            None => Answer::Flawed(Flaw::Date),
            Some(dtact_fl) => match day_start(attr_or_empty(tree, "DTActUL"@)) {
                None => Answer::Flawed(Flaw::Date),
                Some(dtact_ul) => match partners_of(tree.children) {
                    Err(flaw) => Answer::Flawed(flaw),
                    Ok(partners) => Answer::Report(
                        NdsResponseView { dtact_fl, dtact_ul, partners },
                    ),
                },
            },
        }
    }
}

/// Whether `error` tells of `flaw`.
pub open spec fn tells(error: Error, flaw: Flaw) -> bool {
    match flaw {
        Flaw::Date => error is ParseDateTimeError,
        Flaw::Number => error is ParseIntError,
    }
}

/// Whether `r` gives `answer`.
pub open spec fn gives(r: Result<NdsResponse, Error>, answer: Answer) -> bool {
    match answer {
        Answer::Report(report) => r matches Ok(response) && response@ == report,
        Answer::Refused(message) => r matches Err(Error::FnsError(told)) && told@ == message,
        Answer::Flawed(flaw) => r matches Err(error) && tells(error, flaw),
    }
}

/// The start of the day that `value` names as day, month and year with dots.
pub fn get_datetime(value: &str) -> (r: Result<chrono::NaiveDateTime, chrono::ParseError>)
    ensures
        match day_start(value@) {
            Some(at) => r == Ok::<chrono::NaiveDateTime, chrono::ParseError>(at),
            None => r is Err,
        },
{
    let text = value.to_owned().concat(" 00:00:00");
    parse_with_format(text.as_str(), "%d.%m.%Y %H:%M:%S")
}

/// Reads a counterparty from an element of a reply.
fn read_partner(element: &XmlElement) -> (r: Result<Partner, Error>)
    ensures
        match partner_of(element@) {
            Ok(partner) => r matches Ok(got) && got@ == partner,
            Err(flaw) => r matches Err(error) && tells(error, flaw),
        },
{
    let dt = match get_datetime(element.get_attr("DT").as_str()) {
        Ok(dt) => dt,
        Err(error) => {
            return Err(Error::ParseDateTimeError(error));
        },
    };
    let state = match parse_i32(element.get_attr("State").as_str()) {
        Ok(state) => state,
        Err(error) => {
            return Err(Error::ParseIntError(error));
        },
    };
    Ok(Partner { inn: element.get_attr("INN"), kpp: element.get_attr("KPP"), dt, state })
}

impl FromElement for Partner {
    /// The counterparty that `element` stands for.
    fn from_element(element: XmlElement) -> (r: Result<Partner, Error>)
        ensures
            match partner_of(element@) {
                Ok(partner) => r matches Ok(got) && got@ == partner,
                Err(flaw) => r matches Err(error) && tells(error, flaw),
            },
    {
        read_partner(&element)
    }
}

impl FromElement for NdsResponse {
    /// The answer that the result element of a reply stands for.
    fn from_element(element: XmlElement) -> (r: Result<NdsResponse, Error>)
        ensures
            gives(r, answer_of(element@)),
    {
        let err_msg = element.get_attr("errMsg");
        if !err_msg.as_str().is_empty() {
            return Err(Error::FnsError(err_msg));
        }
        let dtact_fl = match get_datetime(element.get_attr("DTActFL").as_str()) {
            Ok(at) => at,
            Err(error) => {
                return Err(Error::ParseDateTimeError(error));
            },
        };
        let dtact_ul = match get_datetime(element.get_attr("DTActUL").as_str()) {
            Ok(at) => at,
            Err(error) => {
                return Err(Error::ParseDateTimeError(error));
            },
        };
        let mut partners: Vec<Partner> = Vec::new();
        let mut i: usize = 0;
        proof {
            element.lemma_children();
            assert(element@.children.take(0) =~= Seq::<Tree>::empty());
            assert(partner_views(partners@) =~= Seq::<PartnerView>::empty());
        }
        while i < element.children.len()
            invariant
                i <= element.children.len(),
                element@.children.len() == element.children.len(),
                forall|j: int| 0 <= j < element.children.len() ==> element@.children[j]
                    == element.children[j]@,
                attr_or_empty(element@, "errMsg"@).len() == 0,
                day_start(attr_or_empty(element@, "DTActFL"@)) == Some(dtact_fl),
                day_start(attr_or_empty(element@, "DTActUL"@)) == Some(dtact_ul),
                partners_of(element@.children.take(i as int)) == Ok::<Seq<PartnerView>, Flaw>(
                    partner_views(partners@),
                ),
            decreases element.children.len() - i,
        {
            proof {
                let next = element@.children.take(i + 1);
                assert(next.drop_last() =~= element@.children.take(i as int));
                assert(next.last() == element.children[i as int]@);
            }
            let ghost before = partner_views(partners@);
            match read_partner(&element.children[i]) {
                Ok(partner) => {
                    partners.push(partner);
                    assert(partner_views(partners@) =~= before.push(partner@));
                },
                Err(error) => {
                    proof {
                        lemma_flaw_stays(element@.children, i + 1);
                    }
                    return Err(error);
                },
            }
            i = i + 1;
        }
        assert(element@.children.take(i as int) =~= element@.children);
        Ok(NdsResponse { dtact_fl, dtact_ul, partners })
    }
}

/// Once the first `n` elements hold a flaw, the whole row reports it.
pub proof fn lemma_flaw_stays(elements: Seq<Tree>, n: int)
    requires
        0 <= n <= elements.len(),
        partners_of(elements.take(n)) is Err,
    ensures
        partners_of(elements) == partners_of(elements.take(n)),
    decreases elements.len() - n,
{
    if n < elements.len() {
        let next = elements.take(n + 1);
        assert(next.drop_last() =~= elements.take(n));
        lemma_flaw_stays(elements, n + 1);
    } else {
        assert(elements.take(n) =~= elements);
    }
}

} // verus!
