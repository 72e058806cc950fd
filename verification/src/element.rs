//! A host-independent UI element tree, replayed onto the host's element
//! builder by the caller.
use vstd::prelude::*;

verus! {

/// Kinds of UI elements.
#[derive(Clone, Copy, Debug, PartialEq, Eq, Structural)]
pub enum ElementKind {
    P,
    Div,
    Button,
    Input,
}

/// UI events an element can listen for, and that the host reports.
#[derive(Clone, Copy, Debug, PartialEq, Eq, Structural)]
pub enum UiEvent {
    Click,
    Input,
    Change,
    /// Any other event the host reports.
    Other,
}

/// Flex layout directions.
#[derive(Clone, Copy, Debug, PartialEq, Eq, Structural)]
pub enum FlexDir {
    Row,
    Column,
}

/// One builder call on an element, in the order the calls are made.
pub enum ElementOp {
    Size(u32),
    TextColor(String),
    Bg(String),
    Radius(u32),
    Flex,
    FlexDirection(FlexDir),
    Gap(u32),
    AlignCenter,
    MarginTop(u32),
    PaddingLeft(u32),
    PaddingRight(u32),
    Padding(u32),
    WidthFull,
    Prop(String, String),
    On(UiEvent, String),
    Child(Element),
}

/// An element: its kind, its text, and the builder calls made on it.
pub struct Element {
    pub kind: ElementKind,
    pub text: Option<String>,
    pub ops: Vec<ElementOp>,
}

/// The mathematical form of an [`ElementOp`].
pub enum OpModel {
    Size(u32),
    TextColor(Seq<char>),
    Bg(Seq<char>),
    Radius(u32),
    Flex,
    FlexDirection(FlexDir),
    Gap(u32),
    AlignCenter,
    MarginTop(u32),
    PaddingLeft(u32),
    PaddingRight(u32),
    Padding(u32),
    WidthFull,
    Prop(Seq<char>, Seq<char>),
    On(UiEvent, Seq<char>),
    Child(ElementModel),
}

/// The mathematical form of an [`Element`].
pub struct ElementModel {
    pub kind: ElementKind,
    pub text: Option<Seq<char>>,
    pub ops: Seq<OpModel>,
}

/// The model of an element.
pub open spec fn element_model(e: Element) -> ElementModel
    decreases e,
{
    ElementModel {
        kind: e.kind,
        text: match e.text {
            Some(t) => Some(t@),
            None => None,
        },
        ops: op_models(e.ops@),
    }
}

/// The models of a sequence of builder calls.
pub open spec fn op_models(s: Seq<ElementOp>) -> Seq<OpModel>
    decreases s,
{
    if s.len() == 0 {
        seq![]
    } else {
        op_models(s.drop_last()).push(op_model(s.last()))
    }
}

/// The model of one builder call.
pub open spec fn op_model(o: ElementOp) -> OpModel
    decreases o,
{
    match o {
        ElementOp::Size(n) => OpModel::Size(n),
        ElementOp::TextColor(c) => OpModel::TextColor(c@),
        ElementOp::Bg(c) => OpModel::Bg(c@),
        ElementOp::Radius(n) => OpModel::Radius(n),
        ElementOp::Flex => OpModel::Flex,
        ElementOp::FlexDirection(d) => OpModel::FlexDirection(d),
        ElementOp::Gap(n) => OpModel::Gap(n),
        ElementOp::AlignCenter => OpModel::AlignCenter,
        ElementOp::MarginTop(n) => OpModel::MarginTop(n),
        ElementOp::PaddingLeft(n) => OpModel::PaddingLeft(n),
        ElementOp::PaddingRight(n) => OpModel::PaddingRight(n),
        ElementOp::Padding(n) => OpModel::Padding(n),
        ElementOp::WidthFull => OpModel::WidthFull,
        ElementOp::Prop(k, v) => OpModel::Prop(k@, v@),
        ElementOp::On(ev, id) => OpModel::On(ev, id@),
        ElementOp::Child(e) => OpModel::Child(element_model(e)),
    }
}

impl View for Element {
    type V = ElementModel;

    open spec fn view(&self) -> ElementModel {
        element_model(*self)
    }
}

/// A fresh element with no builder calls.
pub open spec fn m_new(kind: ElementKind, text: Option<Seq<char>>) -> ElementModel {
    ElementModel { kind, text, ops: seq![] }
}

/// `e` with one more builder call.
pub open spec fn m_with(e: ElementModel, op: OpModel) -> ElementModel {
    ElementModel { ops: e.ops.push(op), ..e }
}

/// `ui::Element::new(kind, text)`.
pub fn new_element(kind: ElementKind, text: Option<&str>) -> (r: Element)
    ensures
        r@ == m_new(
            kind,
            match text {
                Some(t) => Some(t@),
                None => None,
            },
        ),
{
    let t = match text {
        Some(t) => Some(crate::text::copy_str(t)),
        None => None,
    };
    let r = Element { kind, text: t, ops: Vec::new() };
    assert(r@.ops =~= seq![]);
    r
}

/// An element whose text is an owned string.
pub fn new_element_owned(kind: ElementKind, text: String) -> (r: Element)
    ensures
        r@ == m_new(kind, Some(text@)),
{
    let r = Element { kind, text: Some(text), ops: Vec::new() };
    assert(r@.ops =~= seq![]);
    r
}

/// Makes one more builder call on `e`.
pub fn with(e: Element, op: ElementOp) -> (r: Element)
    ensures
        r@ == m_with(e@, op_model(op)),
{
    let ghost old_ops = e.ops@;
    let mut e = e;
    e.ops.push(op);
    assert(e.ops@.drop_last() =~= old_ops);
    e
}

} // verus!
