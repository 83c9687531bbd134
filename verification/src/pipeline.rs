//! Descriptions of GStreamer pipelines: which elements a pipeline is made of,
//! with which names and properties, and how they are linked. A description is
//! plain data; making the elements from it is left to the caller.

use vstd::prelude::*;

verus! {

/// The value of a field of caps.
pub enum CapsValue {
    Int(i32),
    Text(String),
    /// A fraction `numerator/denominator`.
    Fraction(i32, i32),
}

pub enum CapsValueView {
    Int(i32),
    Text(Seq<char>),
    Fraction(i32, i32),
}

impl View for CapsValue {
    type V = CapsValueView;

    open spec fn view(&self) -> CapsValueView {
        match self {
            CapsValue::Int(i) => CapsValueView::Int(*i),
            CapsValue::Text(s) => CapsValueView::Text(s@),
            CapsValue::Fraction(n, d) => CapsValueView::Fraction(*n, *d),
        }
    }
}

/// Caps: a media type with fields, in order.
pub struct Caps {
    pub media: String,
    pub fields: Vec<(String, CapsValue)>,
}

pub struct CapsView {
    pub media: Seq<char>,
    pub fields: Seq<(Seq<char>, CapsValueView)>,
}

pub open spec fn caps_field_view(f: (String, CapsValue)) -> (Seq<char>, CapsValueView) {
    (f.0@, f.1@)
}

impl View for Caps {
    type V = CapsView;

    open spec fn view(&self) -> CapsView {
        CapsView { media: self.media@, fields: self.fields@.map_values(|f| caps_field_view(f)) }
    }
}

/// The value a property is set to: text that the element parses, a boolean, an
/// integer or caps.
pub enum PropertyValue {
    Text(String),
    Bool(bool),
    Int(i64),
    Caps(Caps),
}

pub enum PropertyValueView {
    Text(Seq<char>),
    Bool(bool),
    Int(int),
    Caps(CapsView),
}

impl View for PropertyValue {
    type V = PropertyValueView;

    open spec fn view(&self) -> PropertyValueView {
        match self {
            PropertyValue::Text(s) => PropertyValueView::Text(s@),
            PropertyValue::Bool(b) => PropertyValueView::Bool(*b),
            PropertyValue::Int(i) => PropertyValueView::Int(*i as int),
            PropertyValue::Caps(c) => PropertyValueView::Caps(c@),
        }
    }
}

/// An element: the factory it is made by, an optional name, and the properties
/// set on it, in order.
pub struct Element {
    pub factory: String,
    pub name: Option<String>,
    pub properties: Vec<(String, PropertyValue)>,
}

pub struct ElementView {
    pub factory: Seq<char>,
    pub name: Option<Seq<char>>,
    pub properties: Seq<(Seq<char>, PropertyValueView)>,
}

pub open spec fn property_view(p: (String, PropertyValue)) -> (Seq<char>, PropertyValueView) {
    (p.0@, p.1@)
}

impl View for Element {
    type V = ElementView;

    open spec fn view(&self) -> ElementView {
        ElementView {
            factory: self.factory@,
            name: match self.name {
                Some(n) => Some(n@),
                None => None,
            },
            properties: self.properties@.map_values(|p| property_view(p)),
        }
    }
}

/// A pipeline: an optional name, its elements, and the links between them, each
/// from the element at the first index to the element at the second.
pub struct Pipeline {
    pub name: Option<String>,
    pub elements: Vec<Element>,
    pub links: Vec<(usize, usize)>,
}

pub struct PipelineView {
    pub name: Option<Seq<char>>,
    pub elements: Seq<ElementView>,
    pub links: Seq<(usize, usize)>,
}

impl View for Pipeline {
    type V = PipelineView;

    open spec fn view(&self) -> PipelineView {
        PipelineView {
            name: match self.name {
                Some(n) => Some(n@),
                None => None,
            },
            elements: self.elements@.map_values(|e: Element| e@),
            links: self.links@,
        }
    }
}

/// An element's view with the given factory, name and properties.
pub open spec fn element_spec(
    factory: Seq<char>,
    name: Option<Seq<char>>,
    properties: Seq<(Seq<char>, PropertyValueView)>,
) -> ElementView {
    ElementView { factory, name, properties }
}

/// `e` has a property `name` set to `v`.
pub open spec fn has_property(e: ElementView, name: Seq<char>, v: PropertyValueView) -> bool {
    exists|i: int| 0 <= i < e.properties.len() && #[trigger] e.properties[i] == (name, v)
}

/// The fields of the caps a property holds, if it holds caps.
pub open spec fn caps_fields_of(p: (Seq<char>, PropertyValueView)) -> Seq<(Seq<char>, CapsValueView)> {
    match p.1 {
        PropertyValueView::Caps(c) => c.fields,
        _ => Seq::empty(),
    }
}

/// The caps that `e`'s property `caps` holds have a field `field` of value `v`.
pub open spec fn has_caps_field(e: ElementView, field: Seq<char>, v: CapsValueView) -> bool {
    exists|i: int, j: int|
        0 <= i < e.properties.len() && e.properties[i].0 == "caps"@ && 0 <= j < caps_fields_of(
            e.properties[i],
        ).len() && #[trigger] caps_fields_of(e.properties[i])[j] == (field, v)
}

/// Text property.
pub open spec fn text_prop(name: Seq<char>, value: Seq<char>) -> (Seq<char>, PropertyValueView) {
    (name, PropertyValueView::Text(value))
}

/// Caps property `caps`.
pub open spec fn caps_prop(media: Seq<char>, fields: Seq<(Seq<char>, CapsValueView)>) -> (
    Seq<char>,
    PropertyValueView,
) {
    ("caps"@, PropertyValueView::Caps(CapsView { media, fields }))
}

/// Links through `elements[from..to]`, each to the next.
pub open spec fn chain_links(from: int, to: int) -> Seq<(usize, usize)>
    decreases to - from,
{
    if to - from <= 1 {
        Seq::empty()
    } else {
        seq![(from as usize, (from + 1) as usize)] + chain_links(from + 1, to)
    }
}

/// Every link of `p` joins two of its elements.
pub open spec fn links_in_range(p: PipelineView) -> bool {
    forall|i: int|
        0 <= i < p.links.len() ==> (#[trigger] p.links[i]).0 < p.elements.len() && p.links[i].1
            < p.elements.len()
}

/// A new element made by `factory`, with an optional name and no properties yet.
pub fn element(factory: &str, name: Option<&str>) -> (e: Element)
    ensures
        e@ == element_spec(
            factory@,
            match name {
                Some(n) => Some(n@),
                None => None,
            },
            Seq::empty(),
        ),
{
    let name = match name {
        Some(n) => Some(n.to_owned()),
        None => None,
    };
    let e = Element { factory: factory.to_owned(), name, properties: Vec::new() };
    assert(e.properties@.map_values(|p| property_view(p)) =~= Seq::<
        (Seq<char>, PropertyValueView),
    >::empty());
    e
}

impl Element {
    /// Sets the property `name` to `value`, after the properties set before.
    pub fn set(&mut self, name: &str, value: PropertyValue)
        ensures
            final(self)@ == (ElementView {
                properties: old(self)@.properties.push((name@, value@)),
                ..old(self)@
            }),
    {
        let ghost before = self.properties@;
        self.properties.push((name.to_owned(), value));
        assert(self.properties@.map_values(|p| property_view(p)) =~= before.map_values(
            |p| property_view(p),
        ).push((name@, value@)));
    }

    /// Sets the property `name` to the text `value`.
    pub fn set_text(&mut self, name: &str, value: &str)
        ensures
            final(self)@ == (ElementView {
                properties: old(self)@.properties.push(text_prop(name@, value@)),
                ..old(self)@
            }),
    {
        self.set(name, PropertyValue::Text(value.to_owned()));
    }
}

/// Caps of the media type `media` with no fields yet.
pub fn caps(media: &str) -> (c: Caps)
    ensures
        c@ == (CapsView { media: media@, fields: Seq::empty() }),
{
    let c = Caps { media: media.to_owned(), fields: Vec::new() };
    assert(c.fields@.map_values(|f| caps_field_view(f)) =~= Seq::<(Seq<char>, CapsValueView)>::empty());
    c
}

impl Caps {
    /// Adds the field `name` with `value`, after the fields added before.
    pub fn field(self, name: &str, value: CapsValue) -> (c: Caps)
        ensures
            c@ == (CapsView { media: self@.media, fields: self@.fields.push((name@, value@)) }),
    {
        let mut c = self;
        let ghost before = c.fields@;
        c.fields.push((name.to_owned(), value));
        assert(c.fields@.map_values(|f| caps_field_view(f)) =~= before.map_values(
            |f| caps_field_view(f),
        ).push((name@, value@)));
        c
    }
}

impl Pipeline {
    /// An empty pipeline.
    pub fn new(name: Option<&str>) -> (p: Pipeline)
        ensures
            p@ == (PipelineView {
                name: match name {
                    Some(n) => Some(n@),
                    None => None,
                },
                elements: Seq::empty(),
                links: Seq::empty(),
            }),
    {
        let name = match name {
            Some(n) => Some(n.to_owned()),
            None => None,
        };
        let p = Pipeline { name, elements: Vec::new(), links: Vec::new() };
        assert(p.elements@.map_values(|e: Element| e@) =~= Seq::<ElementView>::empty());
        p
    }

    /// Adds `e`, after the elements added before; returns its index.
    pub fn add(&mut self, e: Element) -> (i: usize)
        requires
            old(self)@.elements.len() < usize::MAX,
        ensures
            i == old(self)@.elements.len(),
            final(self)@ == (PipelineView { elements: old(self)@.elements.push(e@), ..old(self)@ }),
    {
        let ghost before = self.elements@;
        let i = self.elements.len();
        self.elements.push(e);
        assert(self.elements@.map_values(|x: Element| x@) =~= before.map_values(|x: Element| x@).push(
            e@,
        ));
        i
    }

    /// Links each element at `from..to - 1` to the next one.
    pub fn link_chain(&mut self, from: usize, to: usize)
        requires
            from <= to,
        ensures
            final(self)@ == (PipelineView {
                links: old(self)@.links + chain_links(from as int, to as int),
                ..old(self)@
            }),
        decreases to - from,
    {
        if to - from <= 1 {
            assert(old(self)@.links + chain_links(from as int, to as int) =~= old(self)@.links);
        } else {
            self.link(from, from + 1);
            self.link_chain(from + 1, to);
            assert(old(self)@.links.push((from, (from + 1) as usize)) + chain_links(
                from + 1,
                to as int,
            ) =~= old(self)@.links + chain_links(from as int, to as int));
        }
    }

    /// Links the element at `from` to the element at `to`.
    pub fn link(&mut self, from: usize, to: usize)
        ensures
            final(self)@ == (PipelineView { links: old(self)@.links.push((from, to)), ..old(self)@ }),
    {
        self.links.push((from, to));
    }
}

/// A GStreamer element that could not be made, by the name of its factory.
pub struct MissingElement(pub &'static str);

impl MissingElement {
    /// The error's message.
    pub fn message(&self) -> (m: String)
        ensures
            m@ == "Missing gstreamer element "@ + self.0@,
    {
        let mut m = String::new();
        m.append("Missing gstreamer element ");
        m.append(self.0);
        m
    }
}

/// What the bus of a running pipeline reported.
pub enum BusMessage {
    EndOfStream,
    Error,
    /// A state change, of the pipeline itself or of one of its elements, from
    /// `old` to `current` (each as its `Debug` text).
    StateChanged { of_pipeline: bool, old: String, current: String },
    Other,
}

/// What to do about a bus message.
pub enum BusAction {
    /// Stop watching the bus and set the pipeline to `Null`.
    Stop,
    /// Write a graph of the pipeline to a dot file of this name, then go on.
    DumpDot(String),
    /// Go on watching.
    Continue,
}

/// What a running pipeline does about `msg`: it stops at the end of the stream
/// and at an error; when the pipeline itself changes state it writes a dot graph
/// named `<old>-<current>`.
pub fn on_bus_message(msg: &BusMessage) -> (a: BusAction)
    ensures
        match msg {
            BusMessage::EndOfStream => a is Stop,
            BusMessage::Error => a is Stop,
            BusMessage::StateChanged { of_pipeline, old, current } => if *of_pipeline {
                a matches BusAction::DumpDot(name) && name@ == old@ + "-"@ + current@
            } else {
                a is Continue
            },
            BusMessage::Other => a is Continue,
        },
{
    match msg {
        BusMessage::EndOfStream => BusAction::Stop,
        BusMessage::Error => BusAction::Stop,
        BusMessage::StateChanged { of_pipeline, old, current } => {
            if *of_pipeline {
                let mut name = String::new();
                name.append(old.as_str());
                name.append("-");
                name.append(current.as_str());
                BusAction::DumpDot(name)
            } else {
                BusAction::Continue
            }
        },
        BusMessage::Other => BusAction::Continue,
    }
}

} // verus!
