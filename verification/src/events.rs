//! The XML write operations the engine emits, and the event writer that
//! collects them.

use vstd::prelude::*;

verus! {

/// One attribute of a start-element event: a wire name and a value.
///
/// Attributes are bound to the start event they belong to, never streamed on
/// their own, so they appear only inside [`Event::Start`].
#[derive(Clone, PartialEq, Eq, Debug)]
pub struct Attr {
    pub name: String,
    pub value: String,
}

/// Mathematical model of an [`Attr`]: both parts as character sequences.
#[verifier::ext_equal]
pub struct SpecAttr {
    pub name: Seq<char>,
    pub value: Seq<char>,
}

impl View for Attr {
    type V = SpecAttr;

    open spec fn view(&self) -> SpecAttr {
        SpecAttr { name: self.name@, value: self.value@ }
    }
}

/// One XML write operation.
#[derive(Clone, PartialEq, Eq, Debug)]
pub enum Event {
    /// Element open, carrying the attributes that were attached to it before
    /// it was flushed to the writer.
    Start { name: String, attrs: Vec<Attr> },
    /// Element close; it closes the most recently opened element, so it
    /// carries no name of its own.
    End,
    /// Character data.
    Characters(String),
}

/// Mathematical model of an [`Event`].
#[verifier::ext_equal]
pub enum SpecEvent {
    Start { name: Seq<char>, attrs: Seq<SpecAttr> },
    End,
    Characters(Seq<char>),
}

impl View for Event {
    type V = SpecEvent;

    open spec fn view(&self) -> SpecEvent {
        match self {
            Event::Start { name, attrs } => SpecEvent::Start {
                name: name@,
                attrs: attrs@.map_values(|a: Attr| a@),
            },
            Event::End => SpecEvent::End,
            Event::Characters(text) => SpecEvent::Characters(text@),
        }
    }
}

/// A start-element event under construction.
///
/// An attribute list is bound to its start event, not streamed
/// independently, so attributes are gathered here and the whole event is
/// flushed to the writer at once.
pub struct PendingStart {
    pub name: String,
    pub attrs: Vec<Attr>,
}

impl PendingStart {
    /// A fresh start event for an element named `name`, with no attributes.
    pub fn new(name: String) -> (r: PendingStart)
        ensures
            r.name == name,
            r.attrs@ == Seq::<Attr>::empty(),
    {
        let r = PendingStart { name, attrs: Vec::new() };
        proof {
            assert(r.attrs@ =~= Seq::<Attr>::empty());
        }
        r
    }

    /// Attach one more attribute to the not-yet-flushed start event.
    pub fn attr(&mut self, name: String, value: String)
        ensures
            final(self).name == old(self).name,
            final(self).attrs@ == old(self).attrs@.push(Attr { name, value }),
    {
        self.attrs.push(Attr { name, value });
    }
}

/// The event writer: the sink for one serialization call.
///
/// It records the emitted operations in order; its view is the sequence of
/// their models.  An in-memory writer cannot fail, so every write operation
/// succeeds; a sink that forwards events elsewhere reports its failures as
/// [`SerError`].
pub struct EventWriter {
    pub events: Vec<Event>,
}

impl View for EventWriter {
    type V = Seq<SpecEvent>;

    open spec fn view(&self) -> Seq<SpecEvent> {
        self.events@.map_values(|e: Event| e@)
    }
}

impl EventWriter {
    /// A writer with no events written yet.
    pub fn new() -> (w: EventWriter)
        ensures
            w@ == Seq::<SpecEvent>::empty(),
    {
        let w = EventWriter { events: Vec::new() };
        proof {
            assert(w@ =~= Seq::<SpecEvent>::empty());
        }
        w
    }

    /// Flush a start event, with the attributes attached to it, to the stream.
    pub fn write_start(&mut self, start: PendingStart)
        ensures
            final(self)@ == old(self)@.push(
                SpecEvent::Start {
                    name: start.name@,
                    attrs: start.attrs@.map_values(|a: Attr| a@),
                },
            ),
    {
        let ghost target = SpecEvent::Start {
            name: start.name@,
            attrs: start.attrs@.map_values(|a: Attr| a@),
        };
        let PendingStart { name, attrs } = start;
        self.events.push(Event::Start { name, attrs });
        proof {
            assert(self@ =~= old(self)@.push(target));
        }
    }

    /// Close the most recently opened element.
    pub fn write_end(&mut self)
        ensures
            final(self)@ == old(self)@.push(SpecEvent::End),
    {
        self.events.push(Event::End);
        proof {
            assert(self@ =~= old(self)@.push(SpecEvent::End));
        }
    }

    /// Write character data.
    pub fn write_characters(&mut self, text: String)
        ensures
            final(self)@ == old(self)@.push(SpecEvent::Characters(text@)),
    {
        let ghost t = text@;
        self.events.push(Event::Characters(text));
        proof {
            assert(self@ =~= old(self)@.push(SpecEvent::Characters(t)));
        }
    }

    /// Hand the recorded events out, consuming the writer.
    pub fn into_events(self) -> (r: Vec<Event>)
        ensures
            r@.map_values(|e: Event| e@) == self@,
    {
        self.events
    }
}

/// The engine's single error kind: a failed write operation, carrying the
/// underlying writer's message verbatim.
///
/// The in-memory [`EventWriter`] never fails, so the engine itself never
/// constructs this; it is the error a caller that forwards the events to a
/// fallible sink reports, and the first failure aborts the whole
/// serialization call.
#[derive(Clone, PartialEq, Eq, Debug)]
pub enum SerError {
    WriteFailure(String),
}

} // verus!
