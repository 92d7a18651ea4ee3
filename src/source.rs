//! One data-source plugin: how it is invoked, and what each piece of its
//! output is reported as.

use vstd::prelude::*;

use crate::config;
use crate::date::{date_text, CalendarDate};
use crate::protocol::{Error, Message, Purpose};
use crate::terminal::{Event, Payload};
use crate::text::clone_strings;

verus! {

/// A resolved data source: its name, its executable and the executable's
/// arguments.
pub struct Source {
    name: String,
    command: String,
    args: Vec<String>,
}

/// The environment entries handed to a plugin.
pub open spec fn environment_of(purpose: Purpose, start: Option<CalendarDate>, end: Option<CalendarDate>) -> Seq<(Seq<char>, Seq<char>)> {
    seq![("PURPOSE"@, purpose.text())] + match start {
        Some(d) => seq![("START_DATE"@, date_text(d.spec_year() as int, d.spec_month() as int, d.spec_day() as int))],
        None => Seq::empty(),
    } + match end {
        Some(d) => seq![("END_DATE"@, date_text(d.spec_year() as int, d.spec_month() as int, d.spec_day() as int))],
        None => Seq::empty(),
    }
}

/// The text of each pair of strings.
pub open spec fn pairs_text(v: Seq<(String, String)>) -> Seq<(Seq<char>, Seq<char>)> {
    v.map_values(|p: (String, String)| (p.0@, p.1@))
}

impl Source {
    pub closed spec fn spec_name(&self) -> Seq<char> {
        self.name@
    }

    pub closed spec fn spec_command(&self) -> Seq<char> {
        self.command@
    }

    pub closed spec fn spec_args(&self) -> Seq<String> {
        self.args@
    }

    pub fn from_config(config: &config::Source) -> (r: Source)
        ensures
            r.spec_name() == config.name@,
            r.spec_command() == config.command@,
            r.spec_args() == config.args@,
    {
        Source { name: config.name.clone(), command: config.command.clone(), args: clone_strings(&config.args) }
    }

    pub fn get_name(&self) -> (r: String)
        ensures
            r@ == self.spec_name(),
    {
        self.name.clone()
    }

    /// The executable to run.
    pub fn command(&self) -> (r: &String)
        ensures
            r@ == self.spec_command(),
    {
        &self.command
    }

    /// The executable's arguments.
    pub fn args(&self) -> (r: &Vec<String>)
        ensures
            r@ == self.spec_args(),
    {
        &self.args
    }

    /// The environment entries for a run of this plugin: `PURPOSE`, then
    /// `START_DATE` and `END_DATE` as `YYYY-MM-DD` when given.
    pub fn environment(purpose: Purpose, start: Option<CalendarDate>, end: Option<CalendarDate>) -> (r: Vec<(String, String)>)
        ensures
            pairs_text(r@) == environment_of(purpose, start, end),
    {
        let mut env: Vec<(String, String)> = Vec::new();
        env.push((String::from_str("PURPOSE"), String::from_str(purpose.as_str())));
        if let Some(d) = start {
            env.push((String::from_str("START_DATE"), d.format()));
        }
        if let Some(d) = end {
            env.push((String::from_str("END_DATE"), d.format()));
        }
        assert(pairs_text(env@) =~= environment_of(purpose, start, end));
        env
    }

    /// The report for the next item of the plugin's output, and whether to
    /// read on: reading stops only after a failed read. Lines after `Done` are
    /// still read, so the output ends when the plugin closes it.
    pub fn report(&self, item: Result<Message, Error>) -> (r: (Event, bool))
        ensures
            r.0.source@ == self.spec_name(),
            r.0.payload == Payload::Line(item),
            r.1 == !(item matches Err(Error::IoError(_))),
    {
        let more = match &item {
            Err(Error::IoError(_)) => false,
            _ => true,
        };
        (Event { source: self.name.clone(), payload: Payload::Line(item) }, more)
    }

    /// The report that the plugin's output has ended.
    pub fn report_end(&self, exit_success: Option<bool>) -> (r: Event)
        ensures
            r.source@ == self.spec_name(),
            r.payload == (Payload::Closed { exit_success }),
    {
        Event { source: self.name.clone(), payload: Payload::Closed { exit_success } }
    }

    /// The report that the plugin could not be started.
    pub fn report_spawn_failure(&self, message: String) -> (r: Event)
        ensures
            r.source@ == self.spec_name(),
            r.payload == Payload::SpawnFailed(message),
    {
        Event { source: self.name.clone(), payload: Payload::SpawnFailed(message) }
    }
}

} // verus!
