//! Debug stream connections and the builder that puts one together.
//!
//! A connection knows where its text goes by two outlets. The library does
//! nothing with an outlet but carry it, so both are type parameters: `O` is
//! a writer, `S` a plain function that takes text.

use core::marker::PhantomData;
use vstd::prelude::*;

verus! {

pub enum StreamType {
    BufferBacked,
    Console,
    Serial,
    Other,
}

/// What is known of the far end of a connection.
#[derive(Clone, Copy, Debug)]
pub struct StreamConnectionInformation {
    /// Columns and rows, where the far end has such limits.
    pub max_chars: Option<(usize, usize)>,
    pub does_support_scrolling: bool,
    pub data_rate: Option<usize>,
    pub connection_name: &'static str,
    pub who_using: &'static str,
}

impl StreamConnectionInformation {
    /// Nothing is known: no limits, scrolling assumed, both names
    /// "Unknown".
    pub fn new() -> (r: Self)
        ensures
            r.max_chars is None,
            r.does_support_scrolling,
            r.data_rate is None,
            r.connection_name@ == "Unknown"@,
            r.who_using@ == "Unknown"@,
    {
        Self {
            max_chars: None,
            does_support_scrolling: true,
            data_rate: None,
            connection_name: "Unknown",
            who_using: "Unknown",
        }
    }
}

pub struct StreamConnection<O, S> {
    pub info: StreamConnectionInformation,
    pub outlet: Option<O>,
    pub ignore_welcome: bool,
    pub simple_outlet: Option<S>,
}

impl<O, S> StreamConnection<O, S> {
    /// A connection of which nothing is known and that leads nowhere.
    pub fn default() -> (r: Self)
        ensures
            r.info.max_chars is None,
            r.info.does_support_scrolling,
            r.info.data_rate is None,
            r.info.connection_name@ == "Unknown"@,
            r.info.who_using@ == "Unknown"@,
            r.outlet is None,
            !r.ignore_welcome,
            r.simple_outlet is None,
    {
        Self {
            info: StreamConnectionInformation::new(),
            outlet: None,
            ignore_welcome: false,
            simple_outlet: None,
        }
    }
}

/// The state of a builder that has not been told what it builds.
pub struct UnknownConnectionType;

/// The state of a builder that builds a console connection.
pub struct ConsoleStreamType;

pub struct StreamConnectionBuilder<Type, O, S> {
    info: StreamConnectionInformation,
    outlet: Option<O>,
    simple_outlet: Option<S>,
    ignore_welcome: bool,
    reserved: PhantomData<Type>,
}

impl<Type, O, S> StreamConnectionBuilder<Type, O, S> {
    pub closed spec fn info(&self) -> StreamConnectionInformation {
        self.info
    }

    pub closed spec fn outlet(&self) -> Option<O> {
        self.outlet
    }

    pub closed spec fn simple_outlet(&self) -> Option<S> {
        self.simple_outlet
    }

    pub closed spec fn ignore_welcome(&self) -> bool {
        self.ignore_welcome
    }
}

impl<O, S> StreamConnectionBuilder<UnknownConnectionType, O, S> {
    /// A builder that knows nothing yet.
    pub fn new() -> (r: Self)
        ensures
            r.info().max_chars is None,
            r.info().does_support_scrolling,
            r.info().data_rate is None,
            r.info().connection_name@ == "Unknown"@,
            r.info().who_using@ == "Unknown"@,
            r.outlet() is None,
            r.simple_outlet() is None,
            !r.ignore_welcome(),
    {
        StreamConnectionBuilder {
            info: StreamConnectionInformation::new(),
            outlet: None,
            simple_outlet: None,
            ignore_welcome: false,
            reserved: PhantomData,
        }
    }

    /// Settles that a console connection is built. What is known of the
    /// far end and the writer are kept; the plain outlet and the wish to
    /// go without a welcome are dropped.
    pub fn console_connection(self) -> (r: StreamConnectionBuilder<ConsoleStreamType, O, S>)
        ensures
            r.info() == self.info(),
            r.outlet() == self.outlet(),
            r.simple_outlet() is None,
            !r.ignore_welcome(),
    {
        StreamConnectionBuilder {
            info: self.info,
            outlet: self.outlet,
            simple_outlet: None,
            ignore_welcome: false,
            reserved: PhantomData,
        }
    }
}

impl<O, S> StreamConnectionBuilder<ConsoleStreamType, O, S> {
    pub fn add_simple_outlet(self, outlet: S) -> (r: Self)
        ensures
            r.info() == self.info(),
            r.outlet() == self.outlet(),
            r.simple_outlet() == Some(outlet),
            r.ignore_welcome() == self.ignore_welcome(),
    {
        let mut r = self;
        r.simple_outlet = Some(outlet);
        r
    }

    pub fn add_outlet(self, outlet: O) -> (r: Self)
        ensures
            r.info() == self.info(),
            r.outlet() == Some(outlet),
            r.simple_outlet() == self.simple_outlet(),
            r.ignore_welcome() == self.ignore_welcome(),
    {
        let mut r = self;
        r.outlet = Some(outlet);
        r
    }

    pub fn add_max_chars(self, max_x: usize, max_y: usize) -> (r: Self)
        ensures
            r.info() == (StreamConnectionInformation {
                max_chars: Some((max_x, max_y)),
                ..self.info()
            }),
            r.outlet() == self.outlet(),
            r.simple_outlet() == self.simple_outlet(),
            r.ignore_welcome() == self.ignore_welcome(),
    {
        let mut r = self;
        r.info.max_chars = Some((max_x, max_y));
        r
    }

    pub fn add_connection_name(self, name: &'static str) -> (r: Self)
        ensures
            r.info() == (StreamConnectionInformation { connection_name: name, ..self.info() }),
            r.outlet() == self.outlet(),
            r.simple_outlet() == self.simple_outlet(),
            r.ignore_welcome() == self.ignore_welcome(),
    {
        let mut r = self;
        r.info.connection_name = name;
        r
    }

    pub fn add_who_using(self, name: &'static str) -> (r: Self)
        ensures
            r.info() == (StreamConnectionInformation { who_using: name, ..self.info() }),
            r.outlet() == self.outlet(),
            r.simple_outlet() == self.simple_outlet(),
            r.ignore_welcome() == self.ignore_welcome(),
    {
        let mut r = self;
        r.info.who_using = name;
        r
    }

    pub fn add_max_data_rate(self, data_rate: usize) -> (r: Self)
        ensures
            r.info() == (StreamConnectionInformation { data_rate: Some(data_rate), ..self.info() }),
            r.outlet() == self.outlet(),
            r.simple_outlet() == self.simple_outlet(),
            r.ignore_welcome() == self.ignore_welcome(),
    {
        let mut r = self;
        r.info.data_rate = Some(data_rate);
        r
    }

    pub fn does_support_scrolling(self, scrolling: bool) -> (r: Self)
        ensures
            r.info() == (StreamConnectionInformation {
                does_support_scrolling: scrolling,
                ..self.info()
            }),
            r.outlet() == self.outlet(),
            r.simple_outlet() == self.simple_outlet(),
            r.ignore_welcome() == self.ignore_welcome(),
    {
        let mut r = self;
        r.info.does_support_scrolling = scrolling;
        r
    }

    pub fn prevent_welcome_message(self, flag: bool) -> (r: Self)
        ensures
            r.info() == self.info(),
            r.outlet() == self.outlet(),
            r.simple_outlet() == self.simple_outlet(),
            r.ignore_welcome() == flag,
    {
        let mut r = self;
        r.ignore_welcome = flag;
        r
    }

    /// The connection that the builder has put together.
    pub fn build(self) -> (r: StreamConnection<O, S>)
        ensures
            r.info == self.info(),
            r.outlet == self.outlet(),
            r.ignore_welcome == self.ignore_welcome(),
            r.simple_outlet == self.simple_outlet(),
    {
        StreamConnection {
            info: self.info,
            outlet: self.outlet,
            ignore_welcome: self.ignore_welcome,
            simple_outlet: self.simple_outlet,
        }
    }
}

} // verus!
