//! What is handed to other programs and servers: commands with their arguments, and uploads with
//! their form fields.

use vstd::prelude::*;
use vstd::string::*;
use crate::paths::DataPath;
use crate::text::{decimal, decimal_of};

verus! {

/// One argument of a command.
pub enum Arg {
    /// A text.
    Text(String),
    /// The path of one of the application's files.
    Data(DataPath),
    /// The path of a file in the system's temporary directory.
    Temp(String),
}

/// What an [`Arg`] says.
pub enum ArgView {
    Text(Seq<char>),
    Data(Seq<Seq<char>>),
    Temp(Seq<char>),
}

impl View for Arg {
    type V = ArgView;

    open spec fn view(&self) -> ArgView {
        match self {
            Arg::Text(text) => ArgView::Text(text@),
            Arg::Data(path) => ArgView::Data(path@),
            Arg::Temp(name) => ArgView::Temp(name@),
        }
    }
}

/// The arguments of a command, in order.
pub struct Args {
    pub list: Vec<Arg>,
}

impl View for Args {
    type V = Seq<ArgView>;

    open spec fn view(&self) -> Seq<ArgView> {
        Seq::new(self.list@.len(), |i: int| self.list@[i]@)
    }
}

impl Args {
    /// No arguments.
    pub fn new() -> (args: Self)
        ensures
            args@ == Seq::<ArgView>::empty(),
    {
        let args = Args { list: Vec::new() };
        assert(args@ =~= Seq::<ArgView>::empty());
        args
    }

    fn push(&mut self, arg: Arg)
        ensures
            final(self)@ == old(self)@.push(arg@),
    {
        self.list.push(arg);
        assert(self@ =~= old(self)@.push(arg@));
    }

    /// Adds a text.
    pub fn text(&mut self, text: &str)
        ensures
            final(self)@ == old(self)@.push(ArgView::Text(text@)),
    {
        self.push(Arg::Text(text.to_string()));
    }

    /// Adds the path of one of the application's files.
    pub fn data(&mut self, path: DataPath)
        ensures
            final(self)@ == old(self)@.push(ArgView::Data(path@)),
    {
        self.push(Arg::Data(path));
    }

    /// Adds the path of a file in the system's temporary directory.
    pub fn temp(&mut self, name: &str)
        ensures
            final(self)@ == old(self)@.push(ArgView::Temp(name@)),
    {
        self.push(Arg::Temp(name.to_string()));
    }
}

/// A program and its arguments.
pub struct Command {
    /// Its path, or the name by which the system finds it.
    pub program: Arg,
    pub args: Args,
}

/// One text field of a form.
pub struct FormField {
    pub name: String,
    pub value: String,
}

/// The text fields of a form, in order.
pub struct Form {
    pub fields: Vec<FormField>,
}

impl View for Form {
    type V = Seq<(Seq<char>, Seq<char>)>;

    open spec fn view(&self) -> Seq<(Seq<char>, Seq<char>)> {
        Seq::new(self.fields@.len(), |i: int| (self.fields@[i].name@, self.fields@[i].value@))
    }
}

impl Form {
    /// No fields.
    pub fn new() -> (form: Self)
        ensures
            form@ == Seq::<(Seq<char>, Seq<char>)>::empty(),
    {
        let form = Form { fields: Vec::new() };
        assert(form@ =~= Seq::<(Seq<char>, Seq<char>)>::empty());
        form
    }

    /// Adds a field.
    pub fn text(&mut self, name: &str, value: &str)
        ensures
            final(self)@ == old(self)@.push((name@, value@)),
    {
        self.fields.push(FormField { name: name.to_string(), value: value.to_string() });
        assert(self@ =~= old(self)@.push((name@, value@)));
    }
}

/// A recording that is sent to a server, in a form behind the part `file`.
pub struct Upload {
    pub url: String,
    /// What stands in the `Authorization` header.
    pub authorization: Option<String>,
    pub form: Form,
}

/// The address of `path` at a server on this machine.
pub open spec fn local_url_of(port: u16, path: Seq<char>) -> Seq<char> {
    "http://127.0.0.1:"@ + decimal_of(port as nat) + path
}

/// The address of `path` at a server on this machine.
pub fn local_url(port: u16, path: &str) -> (url: String)
    ensures
        url@ == local_url_of(port, path@),
{
    "http://127.0.0.1:".to_string().concat(decimal(port as u64).as_str()).concat(path)
}

/// An address on this machine names the port in decimal, and ends with the path as it is.
pub proof fn local_address_names_port_and_path(port: u16, path: &str, url: String)
    requires
        call_ensures(local_url, (port, path), url),
    ensures
        url@ == "http://127.0.0.1:"@ + decimal_of(port as nat) + path@,
{
}

/// Arguments and fields are told one by one, each as what it is.
pub proof fn arguments_are_told_one_by_one(args: Args, form: Form, i: int)
    ensures
        args@.len() == args.list@.len(),
        form@.len() == form.fields@.len(),
        0 <= i < args.list@.len() ==> args@[i] == (match args.list@[i] {
            Arg::Text(text) => ArgView::Text(text@),
            Arg::Data(path) => ArgView::Data(path@),
            Arg::Temp(name) => ArgView::Temp(name@),
        }),
        0 <= i < form.fields@.len() ==> form@[i] == (
            form.fields@[i].name@,
            form.fields@[i].value@,
        ),
{
}

} // verus!
