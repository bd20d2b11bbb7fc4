//! Checks of counterparties through the service at npchk.nalog.ru, over a
//! small SOAP layer: a request is built as an element tree and written as an
//! envelope, the text of a reply is parsed back into a tree, and typed values
//! are read out of it. Sending and receiving is left to the caller: `call`
//! and `check_fns` say what to send, `call_reply` and `check_fns_reply` take
//! what came back.

pub mod dates;
pub mod error;
pub mod models;
pub mod rpser;
pub mod transforms;

use vstd::prelude::*;
use vstd::string::StringExecFns;
use crate::dates::{day_format, format_datetime, formatted_datetime};
use crate::error::Error;
use crate::models::nds_response::{partner_views, NdsResponse};
use crate::models::partner::{Partner, PartnerView};
use crate::rpser::document::is_xml_of;
use crate::rpser::xml::{forest, Tree, XmlElement};
use crate::rpser::{envelope_tree, reply_of_text, reports, Method, Reply, Response};
use crate::transforms::{answer_of, gives, FromElement};

verus! {

/// Where the service listens.
pub open spec fn rpc_path() -> Seq<char> {
    "http://npchk.nalog.ru:80/FNSNDSCAWS_2"@
}

/// The namespace of the service's requests.
pub open spec fn request_namespace() -> Seq<char> {
    "http://ws.unisoft/FNSNDSCAWS2/Request"@
}

/// The prefix that the namespace of requests is bound to.
pub open spec fn request_prefix() -> Seq<char> {
    "req"@
}

/// The method that asks about counterparties.
pub open spec fn request_method() -> Seq<char> {
    "NdsRequest2"@
}

/// How many counterparties one request may hold.
pub open spec fn request_limit() -> int {
    10_000
}

/// What is to be posted: where to, under which SOAP action, and the
/// envelope as XML text.
#[derive(Debug)]
pub struct Request {
    pub url: String,
    pub action: String,
    pub envelope: String,
}

/// Whether `request` is what calls `method` with `args` at the service: it
/// goes to the service's address under the method's name, and holds the
/// envelope of the call in the namespace of requests.
pub open spec fn is_request(request: Request, method: Seq<char>, args: Seq<Tree>) -> bool {
    &&& request.url@ == rpc_path()
    &&& request.action@ == method
    &&& is_xml_of(
        request.envelope@,
        envelope_tree(method, args, request_namespace(), request_prefix()),
    )
}

/// The element that asks about one counterparty: its numbers and the day as
/// attributes.
pub open spec fn np_tree(partner: PartnerView) -> Tree {
    Tree {
        name: request_prefix() + ":"@ + "NP"@,
        attributes: Map::<Seq<char>, Seq<char>>::empty().insert("INN"@, partner.inn).insert(
            "KPP"@,
            partner.kpp,
        ).insert("DT"@, formatted_datetime(partner.dt, day_format())),
        children: Seq::empty(),
        text: None,
    }
}

/// The elements that ask about a row of counterparties, in their order.
pub open spec fn np_trees(partners: Seq<PartnerView>) -> Seq<Tree> {
    Seq::new(partners.len(), |i: int| np_tree(partners[i]))
}

/// What is to be sent to call `method` at the service. The envelope is that
/// of `Method::as_xml` with the namespace of requests.
pub fn call(method: &Method) -> (r: Request)
    ensures
        is_request(r, method.name@, forest(method.args@)),
{
    Request {
        url: "http://npchk.nalog.ru:80/FNSNDSCAWS_2".to_owned(),
        action: method.name.clone(),
        envelope: method.as_xml("http://ws.unisoft/FNSNDSCAWS2/Request", "req"),
    }
}

/// Takes the text of the reply to a call apart: the result element, or the
/// error that the reply amounts to.
pub fn call_reply(body: &str) -> (r: Result<Response, Error>)
    ensures
        match reply_of_text(body@) {
            Reply::Body(tree) => r matches Ok(response) && response.body@ == tree,
            failure => r matches Err(Error::RpcError(error)) && reports(error, failure),
        },
{
    match Response::from_xml(body) {
        Ok(response) => Ok(response),
        Err(error) => Err(Error::RpcError(error)),
    }
}

/// The element that asks about `partner`.
pub fn np_element(partner: &Partner) -> (r: XmlElement)
    ensures
        r@ == np_tree(partner@),
{
    let day = format_datetime(&partner.dt, "%d.%m.%Y");
    XmlElement::node("req".to_owned().concat(":").concat("NP").as_str()).with_attr(
        "INN",
        partner.inn.as_str(),
    ).with_attr("KPP", partner.kpp.as_str()).with_attr("DT", day.as_str())
}

/// The call that asks about `partners`, one argument for each, in their
/// order.
pub fn nds_request(partners: &Vec<Partner>) -> (r: Method)
    ensures
        r.name@ == request_method(),
        forest(r.args@) == np_trees(partner_views(partners@)),
{
    let mut method = Method::new("NdsRequest2");
    let mut i: usize = 0;
    assert(forest(method.args@) =~= np_trees(partner_views(partners@)).take(0));
    while i < partners.len()
        invariant
            i <= partners.len(),
            method.name@ == request_method(),
            forest(method.args@) == np_trees(partner_views(partners@)).take(i as int),
        decreases partners.len() - i,
    {
        let ghost before = forest(method.args@);
        let element = np_element(&partners[i]);
        method = method.with(element);
        proof {
            assert(forest(method.args@) =~= before.push(element@));
            assert(np_trees(partner_views(partners@)).take(i + 1) =~= np_trees(
                partner_views(partners@),
            ).take(i as int).push(np_tree(partners@[i as int]@)));
        }
        i = i + 1;
    }
    assert(np_trees(partner_views(partners@)).take(i as int) =~= np_trees(
        partner_views(partners@),
    ));
    method
}

/// What is to be sent to have `partners` checked. More than ten thousand of
/// them are refused.
pub fn check_fns(partners: Vec<Partner>) -> (r: Result<Request, Error>)
    ensures
        partners@.len() > request_limit() ==> r matches Err(Error::TooManyRecords),
        partners@.len() <= request_limit() ==> (r matches Ok(request) && is_request(
            request,
            request_method(),
            np_trees(partner_views(partners@)),
        )),
{
    if partners.len() > 10_000 {
        return Err(Error::TooManyRecords);
    }
    let method = nds_request(&partners);
    Ok(call(&method))
}

/// What is to be sent to have one counterparty checked.
pub fn check_fns_partner(p: Partner) -> (r: Result<Request, Error>)
    ensures
        r matches Ok(request) && is_request(request, request_method(), seq![np_tree(p@)]),
{
    let mut partners: Vec<Partner> = Vec::new();
    partners.push(p);
    assert(np_trees(partner_views(partners@)) =~= seq![np_tree(p@)]);
    check_fns(partners)
}

/// Takes the text of the reply to a check apart: the service's answer, or
/// the error that the reply amounts to.
pub fn check_fns_reply(body: &str) -> (r: Result<NdsResponse, Error>)
    ensures
        match reply_of_text(body@) {
            Reply::Body(tree) => gives(r, answer_of(tree)),
            failure => r matches Err(Error::RpcError(error)) && reports(error, failure),
        },
{
    let response = call_reply(body)?;
    NdsResponse::from_element(response.body)
}

} // verus!
