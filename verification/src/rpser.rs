//! Remote procedure calls and their XML form: a method with its arguments is
//! wrapped into a SOAP envelope, and the text of a reply is taken apart into
//! its result or its fault.

pub mod attributes;
pub mod document;
pub mod text;
pub mod xml;

use vstd::prelude::*;
use vstd::string::StringExecFns;
use self::document::{is_xml_of, parsed_xml};
use self::text::same_text;
use self::xml::{at_path, forest, texts, Error, Tree, XmlElement};

verus! {

/// A call that is still to be made: the method's name and its arguments.
#[derive(Debug)]
pub struct Method {
    pub name: String,
    pub args: Vec<XmlElement>,
}

/// The reply to a call: the first element inside the envelope's body.
#[derive(Debug)]
pub struct Response {
    pub body: XmlElement,
}

/// What can go wrong with a reply.
#[derive(Debug)]
#[allow(inconsistent_fields)]
pub enum RpcError {
    /// The other side answered with a fault.
    Fault { fault_code: String, fault_string: String, fault_detail: XmlElement },
    /// The reply's tree does not hold what was looked for.
    XmlError { error: Error },
    /// The reply is not XML that can be read.
    XmlTreeError { error: xmltree::ParseError },
    /// An element was expected to hold text.
    ExpectedElementText { tag: String },
    /// The reply's root is not an envelope.
    UnexpectedElement { tag: String },
    /// An element was expected to hold something.
    ElementWasEmpty { name: String },
    /// An element that had to be there is missing.
    ElementNotFound { path: Vec<String> },
}

impl From<Error> for RpcError {
    fn from(other: Error) -> (r: RpcError) {
        RpcError::XmlError { error: other }
    }
}

impl vstd::std_specs::convert::FromSpecImpl<Error> for RpcError {
    open spec fn obeys_from_spec() -> bool {
        true
    }

    open spec fn from_spec(other: Error) -> RpcError {
        RpcError::XmlError { error: other }
    }
}

impl From<xmltree::ParseError> for RpcError {
    fn from(other: xmltree::ParseError) -> (r: RpcError) {
        RpcError::XmlTreeError { error: other }
    }
}

impl vstd::std_specs::convert::FromSpecImpl<xmltree::ParseError> for RpcError {
    open spec fn obeys_from_spec() -> bool {
        true
    }

    open spec fn from_spec(other: xmltree::ParseError) -> RpcError {
        RpcError::XmlTreeError { error: other }
    }
}

/// The namespace that marks the parts of a SOAP envelope.
pub open spec fn soap_namespace() -> Seq<char> {
    "http://schemas.xmlsoap.org/soap/envelope/"@
}

/// The envelope of a call: the two namespace declarations on the root, an
/// empty header, and a body whose one child is named by prefix and method
/// and holds the arguments in their order.
pub open spec fn envelope_tree(
    method: Seq<char>,
    args: Seq<Tree>,
    api_url: Seq<char>,
    namespace: Seq<char>,
) -> Tree {
    Tree {
        name: "soapenv:Envelope"@,
        attributes: Map::<Seq<char>, Seq<char>>::empty().insert(
            "xmlns:soapenv"@,
            soap_namespace(),
        ).insert("xmlns:"@ + namespace, api_url),
        children: seq![
            Tree::leaf("soapenv:Header"@),
            Tree {
                children: seq![Tree { children: args, ..Tree::leaf(namespace + ":"@ + method) }],
                ..Tree::leaf("soapenv:Body"@)
            },
        ],
        text: None,
    }
}

impl Method {
    /// The method `name`, without arguments yet.
    pub fn new(name: &str) -> (r: Method)
        ensures
            r.name@ == name@,
            r.args@.len() == 0,
    {
        Method { name: name.to_owned(), args: Vec::new() }
    }

    /// This method with `arg` as one more argument, behind the others.
    pub fn with(self, arg: XmlElement) -> (r: Method)
        ensures
            r.name == self.name,
            r.args@ == self.args@.push(arg),
    {
        let mut args = self.args;
        args.push(arg);
        Method { name: self.name, args }
    }

    /// The envelope of this call as a tree. `namespace` is the prefix that
    /// `api_url` is bound to; the method's element carries it.
    pub fn envelope(&self, api_url: &str, namespace: &str) -> (r: XmlElement)
        ensures
            r@ == envelope_tree(self.name@, forest(self.args@), api_url@, namespace@),
    {
        let call = XmlElement::node(
            namespace.to_owned().concat(":").concat(self.name.as_str()).as_str(),
        ).with_children_from_iter(self.args.as_slice());
        let body = XmlElement::node("soapenv:Body").with_child(call);
        let mut parts: Vec<XmlElement> = Vec::new();
        parts.push(XmlElement::node("soapenv:Header"));
        parts.push(body);
        let r = XmlElement::node("soapenv:Envelope").with_attr(
            "xmlns:soapenv",
            "http://schemas.xmlsoap.org/soap/envelope/",
        ).with_attr("xmlns:".to_owned().concat(namespace).as_str(), api_url).with_children(parts);
        proof {
            let want = envelope_tree(self.name@, forest(self.args@), api_url@, namespace@);
            assert(call@.children =~= forest(self.args@));
            assert(body@.children =~= want.children[1].children);
            assert(r@.children =~= want.children);
        }
        r
    }

    /// The envelope of this call as XML text.
    pub fn as_xml(&self, api_url: &str, namespace: &str) -> (r: String)
        ensures
            is_xml_of(r@, envelope_tree(self.name@, forest(self.args@), api_url@, namespace@)),
    {
        self.envelope(api_url, namespace).to_string()
    }
}

/// What a reply amounts to, as mathematics.
pub enum Reply {
    /// The result of the call.
    Body(Tree),
    /// A fault, with its code, its message and its detail.
    Fault { code: Seq<char>, message: Seq<char>, detail: Tree },
    /// The root is not named `Envelope`; it is named `tag`.
    UnexpectedElement { tag: Seq<char> },
    /// Nothing stands at `path`, below the element that was searched.
    NotFoundAtPath { path: Seq<Seq<char>> },
    /// The body, named `parent`, is empty.
    ExpectedNotEmpty { parent: Seq<char> },
    /// The text is not XML that can be read.
    Unreadable,
}

/// The text of a tree, or the empty text where it has none.
pub open spec fn text_or_empty(tree: Tree) -> Seq<char> {
    match tree.text {
        Some(text) => text,
        None => Seq::empty(),
    }
}

/// What a fault element amounts to: its three parts are looked up in the
/// order code, message, detail, and the first that is missing is reported.
pub open spec fn fault_of(fault: Tree) -> Reply {
    match at_path(fault, seq!["faultcode"@]) {
        None => Reply::NotFoundAtPath { path: seq!["faultcode"@] },
        Some(code) => match at_path(fault, seq!["faultstring"@]) {
            None => Reply::NotFoundAtPath { path: seq!["faultstring"@] },
            Some(message) => match at_path(fault, seq!["detail"@]) {
                None => Reply::NotFoundAtPath { path: seq!["detail"@] },
                Some(detail) => Reply::Fault {
                    code: text_or_empty(code),
                    message: text_or_empty(message),
                    detail,
                },
            },
        },
    }
}

/// What the root of a reply amounts to.
pub open spec fn reply_of(root: Tree) -> Reply {
    if root.name != "Envelope"@ {
        Reply::UnexpectedElement { tag: root.name }
    } else {
        match at_path(root, seq!["Body"@]) {
            None => Reply::NotFoundAtPath { path: seq!["Body"@] },
            Some(body) => if body.children.len() == 0 {
                Reply::ExpectedNotEmpty { parent: body.name }
            } else if body.children[0].name == "Fault"@ {
                fault_of(body.children[0])
            } else {
                Reply::Body(body.children[0])
            },
        }
    }
}

/// What the text of a reply amounts to.
pub open spec fn reply_of_text(text: Seq<char>) -> Reply {
    match parsed_xml(text) {
        Some(root) => reply_of(root),
        None => Reply::Unreadable,
    }
}

/// Whether `error` stands for `reply`, which is one of the ways to fail.
pub open spec fn reports(error: RpcError, reply: Reply) -> bool {
    match reply {
        Reply::Body(_) => false,
        Reply::Fault { code, message, detail } => {
            &&& error matches RpcError::Fault { fault_code, fault_string, fault_detail }
            &&& fault_code@ == code
            &&& fault_string@ == message
            &&& fault_detail@ == detail
        },
        Reply::UnexpectedElement { tag } => {
            &&& error matches RpcError::UnexpectedElement { tag: found }
            &&& found@ == tag
        },
        Reply::NotFoundAtPath { path } => {
            &&& error matches RpcError::XmlError { error: Error::NotFoundAtPath { path: asked } }
            &&& texts(asked@) == path
        },
        Reply::ExpectedNotEmpty { parent } => {
            &&& error matches RpcError::XmlError { error: Error::ExpectedNotEmpty { parent: named } }
            &&& named@ == parent
        },
        Reply::Unreadable => error is XmlTreeError,
    }
}

/// Whether `r` hands out `reply`: the body on success, and for each way to
/// fail the error that stands for it.
pub open spec fn hands_out(r: Result<Response, RpcError>, reply: Reply) -> bool {
    match reply {
        Reply::Body(tree) => r matches Ok(response) && response.body@ == tree,
        _ => r matches Err(error) && reports(error, reply),
    }
}

/// The text of an element, or the empty text where it has none.
fn text_or_default(element: XmlElement) -> (r: String)
    ensures
        r@ == text_or_empty(element@),
{
    match element.text {
        Some(text) => text,
        None => String::new(),
    }
}

/// The child of `element` named `name`, copied, or the error a reply gives
/// where there is none.
fn part(element: &XmlElement, name: &str) -> (r: Result<XmlElement, RpcError>)
    ensures
        match at_path(element@, seq![name@]) {
            Some(tree) => r matches Ok(found) && found@ == tree,
            None => r matches Err(RpcError::XmlError { error: Error::NotFoundAtPath { path } })
                && texts(path@) == seq![name@],
        },
{
    let path = [name];
    assert(self::xml::names(path@) =~= seq![name@]);
    match element.get_at_path(path.as_slice()) {
        Ok(found) => Ok(found),
        Err(error) => Err(RpcError::XmlError { error }),
    }
}

impl Response {
    /// Takes a reply apart that has been read into a tree already. The root
    /// has to be named `Envelope`; the first child of its `Body` is the
    /// result, unless it is named `Fault`, which gives the fault as an error.
    pub fn from_root(root: XmlElement) -> (r: Result<Response, RpcError>)
        ensures
            hands_out(r, reply_of(root@)),
    {
        if !same_text(root.name.as_str(), "Envelope") {
            return Err(RpcError::UnexpectedElement { tag: root.name });
        }
        let path = ["Body"];
        assert(self::xml::names(path@) =~= seq!["Body"@]);
        let body = match root.descend(path.as_slice()) {
            Ok(body) => body,
            Err(error) => {
                return Err(RpcError::XmlError { error });
            },
        };
        let first = match body.descend_first() {
            Ok(first) => first,
            Err(error) => {
                return Err(RpcError::XmlError { error });
            },
        };
        if same_text(first.name.as_str(), "Fault") {
            let code = part(&first, "faultcode")?;
            let message = part(&first, "faultstring")?;
            let detail = part(&first, "detail")?;
            return Err(
                RpcError::Fault {
                    fault_code: text_or_default(code),
                    fault_string: text_or_default(message),
                    fault_detail: detail,
                },
            );
        }
        Ok(Response { body: first })
    }

    /// Reads the text of a reply and takes it apart as `from_root` does.
    pub fn from_xml(xml: &str) -> (r: Result<Response, RpcError>)
        ensures
            hands_out(r, reply_of_text(xml@)),
    {
        match XmlElement::parse(xml) {
            Ok(root) => Response::from_root(root),
            Err(error) => Err(RpcError::XmlTreeError { error }),
        }
    }
}

} // verus!
