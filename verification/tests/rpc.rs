use npchk::rpser::xml::{Error, XmlElement};
use npchk::rpser::{Method, Response, RpcError};

fn names(e: &XmlElement) -> Vec<String> {
    let mut v = Vec::new();
    for c in &e.children {
        v.push(c.name.clone());
    }
    v
}

fn ping() -> Method {
    Method::new("Ping")
        .with(XmlElement::node("first").with_text("1"))
        .with(XmlElement::node("second").with_attr("k", "v"))
}

#[test]
fn method_collects_its_arguments_in_order() {
    let m = Method::new("Ping");
    assert_eq!(m.name, "Ping");
    assert!(m.args.is_empty());
    let m = ping();
    assert_eq!(m.name, "Ping");
    assert_eq!(m.args.len(), 2);
    assert_eq!(m.args[0].name, "first");
    assert_eq!(m.args[1].name, "second");
}

#[test]
fn envelope_wraps_the_method_in_header_and_body() {
    let envelope = ping().envelope("urn:service", "srv");
    assert_eq!(envelope.name, "soapenv:Envelope");
    assert_eq!(envelope.get_attr("xmlns:soapenv"), "http://schemas.xmlsoap.org/soap/envelope/");
    assert_eq!(envelope.get_attr("xmlns:srv"), "urn:service");
    assert_eq!(envelope.text, None);
    assert_eq!(names(&envelope), vec!["soapenv:Header", "soapenv:Body"]);
    assert!(envelope.children[0].children.is_empty());
    let body = &envelope.children[1];
    assert_eq!(names(body), vec!["srv:Ping"]);
    let call = &body.children[0];
    assert_eq!(names(call), vec!["first", "second"]);
    assert_eq!(call.children[0].text, Some("1".to_string()));
    assert_eq!(call.children[1].get_attr("k"), "v");
}

#[test]
fn envelope_of_a_method_without_arguments() {
    let envelope = Method::new("Nothing").envelope("urn:service", "srv");
    let call = envelope.get_at_path(&["soapenv:Body", "srv:Nothing"]).unwrap();
    assert!(call.children.is_empty());
    assert_eq!(call.text, None);
}

#[test]
fn as_xml_reads_back_as_one_call_with_its_arguments() {
    let text = ping().as_xml("urn:service", "srv");
    assert!(text.starts_with("<?xml version=\"1.0\" encoding=\"UTF-8\"?><soapenv:Envelope "));
    assert!(text.contains(" xmlns:srv=\"urn:service\""));
    assert!(text.contains(" xmlns:soapenv=\"http://schemas.xmlsoap.org/soap/envelope/\""));
    assert!(text.ends_with(
        "<soapenv:Header /><soapenv:Body><srv:Ping><first>1</first><second k=\"v\" /></srv:Ping></soapenv:Body></soapenv:Envelope>"
    ));
    let root = XmlElement::parse(&text).unwrap();
    assert_eq!(root.name, "Envelope");
    assert_eq!(names(&root), vec!["Header", "Body"]);
    let body = root.descend(&["Body"]).unwrap();
    assert_eq!(names(&body), vec!["Ping"]);
    let call = body.descend_first().unwrap();
    assert_eq!(names(&call), vec!["first", "second"]);
    assert_eq!(call.children[0].text, Some("1".to_string()));
    assert_eq!(call.children[1].get_attr("k"), "v");
}

#[test]
fn as_xml_is_a_reply_that_from_xml_takes_apart() {
    let response = Response::from_xml(&ping().as_xml("urn:service", "srv")).unwrap();
    assert_eq!(response.body.name, "Ping");
    assert_eq!(names(&response.body), vec!["first", "second"]);
}

const RESULT: &str = "<soap:Envelope xmlns:soap=\"http://schemas.xmlsoap.org/soap/envelope/\">\
<soap:Header/><soap:Body><PingResponse><value>1</value></PingResponse><Other/></soap:Body>\
</soap:Envelope>";

#[test]
fn from_xml_hands_out_the_first_child_of_the_body() {
    let response = Response::from_xml(RESULT).unwrap();
    assert_eq!(response.body.name, "PingResponse");
    assert_eq!(names(&response.body), vec!["value"]);
    assert_eq!(response.body.children[0].text, Some("1".to_string()));
}

#[test]
fn from_xml_turns_a_fault_into_an_error() {
    let text = "<Envelope><Body><Fault><faultcode>Server</faultcode>\
<faultstring>boom</faultstring><detail><why>because</why></detail></Fault></Body></Envelope>";
    match Response::from_xml(text) {
        Err(RpcError::Fault { fault_code, fault_string, fault_detail }) => {
            assert_eq!(fault_code, "Server");
            assert_eq!(fault_string, "boom");
            assert_eq!(fault_detail.name, "detail");
            assert_eq!(names(&fault_detail), vec!["why"]);
            assert_eq!(fault_detail.children[0].text, Some("because".to_string()));
        }
        other => panic!("unexpected: {:?}", other),
    }
}

#[test]
fn from_xml_reads_a_prefixed_fault() {
    let text = "<s:Envelope xmlns:s=\"http://schemas.xmlsoap.org/soap/envelope/\"><s:Body>\
<s:Fault><faultcode>Client</faultcode><faultstring>no</faultstring><detail/></s:Fault>\
</s:Body></s:Envelope>";
    match Response::from_xml(text) {
        Err(RpcError::Fault { fault_code, fault_string, fault_detail }) => {
            assert_eq!(fault_code, "Client");
            assert_eq!(fault_string, "no");
            assert!(fault_detail.children.is_empty());
        }
        other => panic!("unexpected: {:?}", other),
    }
}

#[test]
fn a_fault_part_without_text_counts_as_empty() {
    let text = "<Envelope><Body><Fault><faultcode/><faultstring></faultstring><detail/>\
</Fault></Body></Envelope>";
    match Response::from_xml(text) {
        Err(RpcError::Fault { fault_code, fault_string, .. }) => {
            assert_eq!(fault_code, "");
            assert_eq!(fault_string, "");
        }
        other => panic!("unexpected: {:?}", other),
    }
}

#[test]
fn a_fault_part_that_is_missing_is_reported() {
    let cases = [
        ("<Envelope><Body><Fault><faultstring>s</faultstring><detail/></Fault></Body></Envelope>", "faultcode"),
        ("<Envelope><Body><Fault><faultcode>c</faultcode><detail/></Fault></Body></Envelope>", "faultstring"),
        ("<Envelope><Body><Fault><faultcode>c</faultcode><faultstring>s</faultstring></Fault></Body></Envelope>", "detail"),
        ("<Envelope><Body><Fault/></Body></Envelope>", "faultcode"),
    ];
    for (text, missing) in cases {
        match Response::from_xml(text) {
            Err(RpcError::XmlError { error: Error::NotFoundAtPath { path } }) => {
                assert_eq!(path, vec![missing])
            }
            other => panic!("unexpected: {:?}", other),
        }
    }
}

#[test]
fn from_xml_refuses_another_root() {
    match Response::from_xml("<Foo><Body><x/></Body></Foo>") {
        Err(RpcError::UnexpectedElement { tag }) => assert_eq!(tag, "Foo"),
        other => panic!("unexpected: {:?}", other),
    }
    match Response::from_xml("<envelope><Body><x/></Body></envelope>") {
        Err(RpcError::UnexpectedElement { tag }) => assert_eq!(tag, "envelope"),
        other => panic!("unexpected: {:?}", other),
    }
}

#[test]
fn from_xml_needs_a_body_with_a_child() {
    match Response::from_xml("<Envelope><Header/></Envelope>") {
        Err(RpcError::XmlError { error: Error::NotFoundAtPath { path } }) => {
            assert_eq!(path, vec!["Body"])
        }
        other => panic!("unexpected: {:?}", other),
    }
    match Response::from_xml("<Envelope><Body></Body></Envelope>") {
        Err(RpcError::XmlError { error: Error::ExpectedNotEmpty { parent } }) => {
            assert_eq!(parent, "Body")
        }
        other => panic!("unexpected: {:?}", other),
    }
}

#[test]
fn from_xml_reports_what_is_not_xml() {
    for text in ["", "not xml", "<Envelope><Body>"] {
        match Response::from_xml(text) {
            Err(RpcError::XmlTreeError { .. }) => {}
            other => panic!("unexpected: {:?}", other),
        }
    }
}

#[test]
fn from_root_takes_a_built_tree_apart() {
    let root = XmlElement::node("Envelope").with_child(
        XmlElement::node("Body")
            .with_child(XmlElement::node("Result").with_text("r"))
            .with_child(XmlElement::node("Fault")),
    );
    let response = Response::from_root(root).unwrap();
    assert_eq!(response.body.name, "Result");
    assert_eq!(response.body.text, Some("r".to_string()));

    let root = XmlElement::node("soapenv:Envelope").with_child(XmlElement::node("Body"));
    match Response::from_root(root) {
        Err(RpcError::UnexpectedElement { tag }) => assert_eq!(tag, "soapenv:Envelope"),
        other => panic!("unexpected: {:?}", other),
    }
}

#[test]
fn errors_of_the_tree_become_rpc_errors() {
    let inner = XmlElement::node("x").descend_first().unwrap_err();
    match RpcError::from(inner) {
        RpcError::XmlError { error: Error::ExpectedNotEmpty { parent } } => assert_eq!(parent, "x"),
        other => panic!("unexpected: {:?}", other),
    }
    let unreadable = XmlElement::parse("<a>").unwrap_err();
    match RpcError::from(unreadable) {
        RpcError::XmlTreeError { .. } => {}
        other => panic!("unexpected: {:?}", other),
    }
}
