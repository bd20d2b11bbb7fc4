//! Element trees: building them, walking them by child names, and reading
//! typed values out of their text.

use vstd::prelude::*;
use vstd::string::StringExecFns;
use crate::dates::{parse_datetime, parsed_datetime};
use crate::rpser::attributes::Attributes;
use crate::rpser::document::{
    document_of, element_of, is_xml_of, parse_document, parsed_xml, write_document,
};
use crate::rpser::text::{decimal_i32, decimal_i64, ends_with, is_suffix, parse_i32, parse_i64, same_text};

verus! {

/// What an element holds, as mathematics: the contracts of this module are
/// stated over values of this type.
pub struct Tree {
    pub name: Seq<char>,
    pub attributes: Map<Seq<char>, Seq<char>>,
    pub children: Seq<Tree>,
    pub text: Option<Seq<char>>,
}

impl Tree {
    /// The tree of a fresh node: a name and nothing else.
    pub open spec fn leaf(name: Seq<char>) -> Tree {
        Tree { name, attributes: Map::empty(), children: Seq::empty(), text: None }
    }
}

/// What can go wrong when a tree is walked or a value is read from it.
#[derive(Debug)]
#[allow(inconsistent_fields)]
pub enum Error {
    /// No element stands at the path that was asked for.
    NotFoundAtPath { path: Vec<String> },
    /// The element has no child to descend into.
    ExpectedNotEmpty { parent: String },
    /// The element does not declare the type that was asked for, or has no text.
    ExpectedElementWithType { name: String, expected_type: String, given: Option<String> },
    /// The element's text is not an integer of the width asked for.
    ParseIntError { name: String, inner: std::num::ParseIntError },
    /// The element's text is not a point in time.
    ParseDateTimeError { name: String, inner: chrono::ParseError },
}

/// One XML node. It owns its children; order among them is kept.
#[derive(Debug)]
pub struct XmlElement {
    pub name: String,
    pub attributes: Attributes,
    pub children: Vec<XmlElement>,
    pub text: Option<String>,
}

/// The characters of an optional text.
pub open spec fn text_view(t: Option<String>) -> Option<Seq<char>> {
    match t {
        Some(s) => Some(s@),
        None => None,
    }
}

/// The trees of a row of elements, in the same order.
pub open spec fn forest(elements: Seq<XmlElement>) -> Seq<Tree> {
    Seq::new(elements.len(), |i: int| elements[i]@)
}

/// The characters of each text of a row of borrowed texts.
pub open spec fn names(path: Seq<&str>) -> Seq<Seq<char>> {
    Seq::new(path.len(), |i: int| path[i]@)
}

/// The characters of each text of a row of owned texts.
pub open spec fn texts(path: Seq<String>) -> Seq<Seq<char>> {
    Seq::new(path.len(), |i: int| path[i]@)
}

impl XmlElement {
    /// The content of this element and of everything below it.
    pub open spec fn tree(self) -> Tree
        decreases self,
    {
        Tree {
            name: self.name@,
            attributes: self.attributes@,
            children: Seq::new(
                self.children@.len(),
                |i: int|
                    if 0 <= i < self.children@.len() {
                        self.children@[i].tree()
                    } else {
                        arbitrary()
                    },
            ),
            text: text_view(self.text),
        }
    }

    /// The children of an element's tree are the trees of its children.
    pub proof fn lemma_children(self)
        ensures
            self@.children == forest(self.children@),
    {
        assert(self@.children =~= forest(self.children@));
    }
}

impl View for XmlElement {
    type V = Tree;

    open spec fn view(&self) -> Tree {
        self.tree()
    }
}

impl XmlElement {
    /// A deep copy: the same tree, sharing nothing with this one.
    pub fn cloned(&self) -> (r: XmlElement)
        ensures
            r@ == self@,
        decreases self,
    {
        let mut children: Vec<XmlElement> = Vec::new();
        let mut i: usize = 0;
        while i < self.children.len()
            invariant
                i <= self.children.len(),
                children.len() == i,
                forall|j: int| 0 <= j < i ==> children[j]@ == self.children[j]@,
            decreases self.children.len() - i,
        {
            let child = self.children[i].cloned();
            children.push(child);
            i = i + 1;
        }
        let r = XmlElement {
            name: self.name.clone(),
            attributes: self.attributes.cloned(),
            children,
            text: self.text.clone(),
        };
        assert(r@.children =~= self@.children);
        r
    }

    /// An empty node: the given name, no attribute, no child, no text.
    pub fn node(name: &str) -> (r: XmlElement)
        ensures
            r@ == Tree::leaf(name@),
    {
        let r = XmlElement {
            name: name.to_owned(),
            attributes: Attributes::new(),
            children: Vec::new(),
            text: None,
        };
        assert(r@.children =~= Seq::<Tree>::empty());
        r
    }

    /// This element under another name.
    pub fn with_name(self, name: &str) -> (r: XmlElement)
        ensures
            r@ == (Tree { name: name@, ..self@ }),
    {
        let r = XmlElement {
            name: name.to_owned(),
            attributes: self.attributes,
            children: self.children,
            text: self.text,
        };
        assert(r@.children =~= self@.children);
        r
    }

    /// This element with `text` as its text, in place of any earlier one.
    pub fn with_text(self, text: &str) -> (r: XmlElement)
        ensures
            r@ == (Tree { text: Some(text@), ..self@ }),
    {
        let r = XmlElement {
            name: self.name,
            attributes: self.attributes,
            children: self.children,
            text: Some(text.to_owned()),
        };
        assert(r@.children =~= self@.children);
        r
    }

    /// This element with `value` stored under the attribute `key`, in place of
    /// any earlier value of that attribute.
    pub fn with_attr(self, key: &str, value: &str) -> (r: XmlElement)
        ensures
            r@ == (Tree { attributes: self@.attributes.insert(key@, value@), ..self@ }),
    {
        let r = XmlElement {
            name: self.name,
            attributes: self.attributes.with(key.to_owned(), value.to_owned()),
            children: self.children,
            text: self.text,
        };
        assert(r@.children =~= self@.children);
        r
    }

    /// This element with `child` added behind its children.
    pub fn with_child(self, child: XmlElement) -> (r: XmlElement)
        ensures
            r@ == (Tree { children: self@.children.push(child@), ..self@ }),
    {
        let mut children = self.children;
        children.push(child);
        let r = XmlElement { name: self.name, attributes: self.attributes, children, text: self.text };
        assert(r@.children =~= self@.children.push(child@));
        r
    }

    /// This element with all of `children` added behind its own, in their order.
    pub fn with_children(self, children: Vec<XmlElement>) -> (r: XmlElement)
        ensures
            r@ == (Tree { children: self@.children + forest(children@), ..self@ }),
    {
        let mut all = self.children;
        let mut more = children;
        all.append(&mut more);
        let r = XmlElement {
            name: self.name,
            attributes: self.attributes,
            children: all,
            text: self.text,
        };
        assert(r@.children =~= self@.children + forest(children@));
        r
    }

    /// This element with a deep copy of each of `children` added behind its
    /// own, in their order.
    pub fn with_children_from_iter(self, children: &[XmlElement]) -> (r: XmlElement)
        ensures
            r@ == (Tree { children: self@.children + forest(children@), ..self@ }),
    {
        let mut all = self.children;
        let ghost own = all@;
        let mut i: usize = 0;
        while i < children.len()
            invariant
                i <= children.len(),
                all@.len() == own.len() + i,
                forall|j: int| 0 <= j < own.len() ==> all@[j] == own[j],
                forall|j: int| 0 <= j < i ==> all@[own.len() + j]@ == children@[j]@,
            decreases children.len() - i,
        {
            let copy = children[i].cloned();
            all.push(copy);
            i = i + 1;
        }
        let r = XmlElement {
            name: self.name,
            attributes: self.attributes,
            children: all,
            text: self.text,
        };
        assert(r@.children =~= self@.children + forest(children@));
        r
    }
}

/// Whether `i` is the place of the first of `children` that is named `name`.
pub open spec fn is_first_named(children: Seq<Tree>, name: Seq<char>, i: int) -> bool {
    &&& 0 <= i < children.len()
    &&& children[i].name == name
    &&& forall|j: int| 0 <= j < i ==> children[j].name != name
}

/// The place of the first of `children` that is named `name`, if one is.
pub open spec fn first_named(children: Seq<Tree>, name: Seq<char>) -> Option<int> {
    if exists|i: int| is_first_named(children, name, i) {
        Some(choose|i: int| is_first_named(children, name, i))
    } else {
        None
    }
}

/// The tree reached from `tree` by going, for each name of `path` in turn,
/// into the first child of that name; `None` where a name has no such child.
pub open spec fn at_path(tree: Tree, path: Seq<Seq<char>>) -> Option<Tree>
    decreases path.len(),
{
    if path.len() == 0 {
        Some(tree)
    } else {
        match first_named(tree.children, path[0]) {
            Some(i) => at_path(tree.children[i], path.drop_first()),
            None => None,
        }
    }
}

/// The value that `tree` holds under the attribute `key`, or the empty text
/// where it has no such attribute.
pub open spec fn attr_or_empty(tree: Tree, key: Seq<char>) -> Seq<char> {
    if tree.attributes.contains_key(key) {
        tree.attributes[key]
    } else {
        Seq::empty()
    }
}

/// The value of the attribute `type`, if the tree has one.
pub open spec fn declared_type(tree: Tree) -> Option<Seq<char>> {
    if tree.attributes.contains_key("type"@) {
        Some(tree.attributes["type"@])
    } else {
        None
    }
}

/// The text of a tree whose attribute `type` ends with `suffix`; `None`
/// where the attribute is missing or ends otherwise, or the tree has no text.
pub open spec fn typed_text(tree: Tree, suffix: Seq<char>) -> Option<Seq<char>> {
    match declared_type(tree) {
        Some(declared) if is_suffix(suffix, declared) => tree.text,
        _ => None,
    }
}

/// Whether `error` reports that `tree` does not offer a text of the type
/// `suffix`: it names the tree, the type asked for behind `*:`, and the type
/// that the tree declares.
pub open spec fn is_type_mismatch(error: Error, tree: Tree, suffix: Seq<char>) -> bool {
    &&& error matches Error::ExpectedElementWithType { name, expected_type, given }
    &&& name@ == tree.name
    &&& expected_type@ == "*:"@ + suffix
    &&& text_view(given) == declared_type(tree)
}

/// Walking along no name at all stays where it is: `descend` with an empty
/// path hands out the element itself, and `get_at_path` a copy of it.
pub proof fn lemma_empty_path(tree: Tree)
    ensures
        at_path(tree, Seq::empty()) == Some(tree),
{
}

/// The first child of a given name is found at one place only.
pub proof fn lemma_first_named(children: Seq<Tree>, name: Seq<char>, i: int)
    requires
        is_first_named(children, name, i),
    ensures
        first_named(children, name) == Some(i),
{
    let k = choose|k: int| is_first_named(children, name, k);
    assert(is_first_named(children, name, k));
    if k < i {
        assert(children[k].name != name);
    }
    if i < k {
        assert(children[i].name != name);
    }
}

/// Going into the first name of a path and then along the rest is going
/// along the path.
pub proof fn lemma_at_path_step(tree: Tree, path: Seq<Seq<char>>, depth: int)
    requires
        0 <= depth < path.len(),
    ensures
        at_path(tree, path.skip(depth)) == match first_named(tree.children, path[depth]) {
            Some(i) => at_path(tree.children[i], path.skip(depth + 1)),
            None => None,
        },
{
    assert(path.skip(depth).drop_first() =~= path.skip(depth + 1));
}

/// An owned copy of each text of `path`, in the same order.
fn owned_path(path: &[&str]) -> (r: Vec<String>)
    ensures
        texts(r@) == names(path@),
{
    let mut r: Vec<String> = Vec::new();
    let mut i: usize = 0;
    while i < path.len()
        invariant
            i <= path.len(),
            r.len() == i,
            forall|j: int| 0 <= j < i ==> r[j]@ == path[j]@,
        decreases path.len() - i,
    {
        r.push(path[i].to_owned());
        i = i + 1;
    }
    assert(texts(r@) =~= names(path@));
    r
}

impl XmlElement {
    /// The root element of an XML document, read from its text with
    /// everything below it. Names come without their namespace prefix.
    pub fn parse(xml: &str) -> (r: Result<XmlElement, xmltree::ParseError>)
        ensures
            match parsed_xml(xml@) {
                Some(tree) => r matches Ok(root) && root@ == tree,
                None => r is Err,
            },
    {
        match parse_document(xml) {
            Ok(document) => Ok(element_of(document)),
            Err(error) => Err(error),
        }
    }

    /// The XML text of this element and of everything below it, as a
    /// document of its own. The text opens with the XML declaration; the
    /// order in which the attributes of an element follow each other in it is
    /// not fixed.
    pub fn to_string(&self) -> (r: String)
        ensures
            is_xml_of(r@, self@),
    {
        let document = document_of(self);
        write_document(&document)
    }

    /// Where the first child named `name` stands.
    fn child_index(&self, name: &str) -> (r: Option<usize>)
        ensures
            first_named(self@.children, name@) == match r {
                Some(i) => Some(i as int),
                None => None,
            },
    {
        let mut i: usize = 0;
        while i < self.children.len()
            invariant
                i <= self.children.len(),
                forall|j: int| 0 <= j < i ==> self@.children[j].name != name@,
            decreases self.children.len() - i,
        {
            proof {
                self.lemma_children();
                assert(self@.children[i as int] == self.children[i as int]@);
                assert(self.children[i as int]@.name == self.children[i as int].name@);
            }
            if same_text(self.children[i].name.as_str(), name) {
                proof {
                    lemma_first_named(self@.children, name@, i as int);
                }
                return Some(i);
            }
            i = i + 1;
        }
        assert forall|k: int| !is_first_named(self@.children, name@, k) by {}
        None
    }

    /// Gives up this element for its child at `i`.
    fn into_child(self, i: usize) -> (r: XmlElement)
        requires
            i < self.children.len(),
        ensures
            r@ == self@.children[i as int],
    {
        let mut children = self.children;
        children.swap_remove(i)
    }

    /// Walks down from this element, for each name of `path` in turn into the
    /// first child of that name, and hands out the element reached; this
    /// element and all that was passed by are given up. Where a name has no
    /// such child, the error holds the whole path that was asked for.
    pub fn descend(self, path: &[&str]) -> (r: Result<XmlElement, Error>)
        ensures
            match at_path(self@, names(path@)) {
                Some(tree) => r matches Ok(found) && found@ == tree,
                None => r matches Err(Error::NotFoundAtPath { path: asked }) && texts(asked@)
                    == names(path@),
            },
    {
        let mut current = self;
        let mut depth: usize = 0;
        assert(names(path@).skip(0) =~= names(path@));
        while depth < path.len()
            invariant
                depth <= path.len(),
                at_path(self@, names(path@)) == at_path(current@, names(path@).skip(depth as int)),
            decreases path.len() - depth,
        {
            proof {
                lemma_at_path_step(current@, names(path@), depth as int);
            }
            match current.child_index(path[depth]) {
                Some(i) => {
                    current = current.into_child(i);
                },
                None => {
                    return Err(Error::NotFoundAtPath { path: owned_path(path) });
                },
            }
            depth = depth + 1;
        }
        Ok(current)
    }

    /// Gives up this element for its first child. An element without
    /// children gives an error that names it.
    pub fn descend_first(self) -> (r: Result<XmlElement, Error>)
        ensures
            self@.children.len() > 0 ==> (r matches Ok(child) && child@ == self@.children[0]),
            self@.children.len() == 0 ==> (r matches Err(Error::ExpectedNotEmpty { parent })
                && parent@ == self@.name),
    {
        if self.children.len() == 0 {
            Err(Error::ExpectedNotEmpty { parent: self.name })
        } else {
            let mut children = self.children;
            Ok(children.remove(0))
        }
    }

    /// A deep copy of the element that `descend` would reach along `path`;
    /// this element stays as it is. Where a name has no such child, the error
    /// holds the whole path that was asked for.
    pub fn get_at_path(&self, path: &[&str]) -> (r: Result<XmlElement, Error>)
        ensures
            match at_path(self@, names(path@)) {
                Some(tree) => r matches Ok(found) && found@ == tree,
                None => r matches Err(Error::NotFoundAtPath { path: asked }) && texts(asked@)
                    == names(path@),
            },
    {
        let mut current: &XmlElement = self;
        let mut depth: usize = 0;
        assert(names(path@).skip(0) =~= names(path@));
        while depth < path.len()
            invariant
                depth <= path.len(),
                at_path(self@, names(path@)) == at_path(current@, names(path@).skip(depth as int)),
            decreases path.len() - depth,
        {
            proof {
                lemma_at_path_step(current@, names(path@), depth as int);
            }
            match current.child_index(path[depth]) {
                Some(i) => {
                    current = &current.children[i];
                },
                None => {
                    return Err(Error::NotFoundAtPath { path: owned_path(path) });
                },
            }
            depth = depth + 1;
        }
        Ok(current.cloned())
    }

    /// The value of the attribute `name`, or the empty text where this
    /// element has no such attribute.
    pub fn get_attr(&self, name: &str) -> (r: String)
        ensures
            r@ == attr_or_empty(self@, name@),
    {
        match self.attributes.get(name) {
            Some(value) => value.clone(),
            None => String::new(),
        }
    }

    /// The text as an `i32`. The attribute `type` has to end with `int`, and
    /// the text has to be a decimal number that fits.
    pub fn as_int(&self) -> (r: Result<i32, Error>)
        ensures
            match typed_text(self@, "int"@) {
                None => r matches Err(error) && is_type_mismatch(error, self@, "int"@),
                Some(text) => match decimal_i32(text) {
                    Some(value) => r matches Ok(got) && got == value,
                    None => r matches Err(Error::ParseIntError { name, .. }) && name@
                        == self@.name,
                },
            },
    {
        let text = get_typed_string(self, "int")?;
        match parse_i32(text.as_str()) {
            Ok(value) => Ok(value),
            Err(inner) => Err(Error::ParseIntError { name: self.name.clone(), inner }),
        }
    }

    /// The text as an `i64`. The attribute `type` has to end with `long`, and
    /// the text has to be a decimal number that fits.
    pub fn as_long(&self) -> (r: Result<i64, Error>)
        ensures
            match typed_text(self@, "long"@) {
                None => r matches Err(error) && is_type_mismatch(error, self@, "long"@),
                Some(text) => match decimal_i64(text) {
                    Some(value) => r matches Ok(got) && got == value,
                    None => r matches Err(Error::ParseIntError { name, .. }) && name@
                        == self@.name,
                },
            },
    {
        let text = get_typed_string(self, "long")?;
        match parse_i64(text.as_str()) {
            Ok(value) => Ok(value),
            Err(inner) => Err(Error::ParseIntError { name: self.name.clone(), inner }),
        }
    }

    /// Whether the text is `true`: any other text, `false` too, gives
    /// `false`. The attribute `type` has to end with `boolean`.
    pub fn as_boolean(&self) -> (r: Result<bool, Error>)
        ensures
            match typed_text(self@, "boolean"@) {
                None => r matches Err(error) && is_type_mismatch(error, self@, "boolean"@),
                Some(text) => r matches Ok(got) && got == (text == "true"@),
            },
    {
        let text = get_typed_string(self, "boolean")?;
        Ok(same_text(text.as_str(), "true"))
    }

    /// The text as it stands. The attribute `type` has to end with `string`.
    pub fn as_string(&self) -> (r: Result<String, Error>)
        ensures
            match typed_text(self@, "string"@) {
                None => r matches Err(error) && is_type_mismatch(error, self@, "string"@),
                Some(text) => r matches Ok(got) && got@ == text,
            },
    {
        get_typed_string(self, "string")
    }

    /// The text as a point in time, in UTC. The attribute `type` has to end
    /// with `dateTime`, and the text has to be one that chrono reads.
    pub fn as_datetime(&self) -> (r: Result<chrono::NaiveDateTime, Error>)
        ensures
            match typed_text(self@, "dateTime"@) {
                None => r matches Err(error) && is_type_mismatch(error, self@, "dateTime"@),
                Some(text) => match parsed_datetime(text) {
                    Some(at) => r matches Ok(got) && got == at,
                    None => r matches Err(Error::ParseDateTimeError { name, .. }) && name@
                        == self@.name,
                },
            },
    {
        let text = get_typed_string(self, "dateTime")?;
        match parse_datetime(text.as_str()) {
            Ok(at) => Ok(at),
            Err(inner) => Err(Error::ParseDateTimeError { name: self.name.clone(), inner }),
        }
    }
}

/// The text of `element`, given that its attribute `type` ends with
/// `value_type`. Otherwise the error names the element, the type asked for
/// and the type found.
pub fn get_typed_string(element: &XmlElement, value_type: &str) -> (r: Result<String, Error>)
    ensures
        match typed_text(element@, value_type@) {
            Some(text) => r matches Ok(got) && got@ == text,
            None => r matches Err(error) && is_type_mismatch(error, element@, value_type@),
        },
{
    let declared = element.attributes.get("type");
    match declared {
        Some(value) => {
            if ends_with(value.as_str(), value_type) {
                match &element.text {
                    Some(text) => {
                        return Ok(text.clone());
                    },
                    None => {},
                }
            }
            Err(
                Error::ExpectedElementWithType {
                    name: element.name.clone(),
                    expected_type: "*:".to_owned().concat(value_type),
                    given: Some(value.clone()),
                },
            )
        },
        None => Err(
            Error::ExpectedElementWithType {
                name: element.name.clone(),
                expected_type: "*:".to_owned().concat(value_type),
                given: None,
            },
        ),
    }
}

} // verus!
