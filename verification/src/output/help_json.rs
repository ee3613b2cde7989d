//! The JSON form of help documents: subcommands, arguments and options as
//! maps keyed by name, and empty sections left out.
use vstd::prelude::*;
use crate::json::{
    Json, JsonValue, ObjectBuilder, entries_view, lemma_entries_view_push, nonempty_entry, opt_entry,
};
use crate::output::contract::{HelpArgumentEntry, HelpCommandEntry, HelpDocument, HelpOptionEntry, HelpRuntimeState};
use crate::text::{join_lines, join_seqs, owned, views};

verus! {

/// The description of an argument or option: its help, `required` when it
/// is, and its defaults joined with commas when it has any.
pub open spec fn help_value_json(help: Seq<char>, required: bool, defaults: Seq<Seq<char>>) -> Json {
    Json::Object(seq![("help"@, Json::Str(help))]
        + (if required { seq![("required"@, Json::Bool(true))] } else { Seq::empty() })
        + (if defaults.len() > 0 { seq![("default"@, Json::Str(join_seqs(defaults, ", "@)))] } else { Seq::empty() }))
}

/// The description of an argument or option.
pub fn help_value_object(help: &str, required: bool, defaults: &Vec<String>) -> (r: JsonValue)
    ensures
        r@ == help_value_json(help@, required, views(defaults@)),
{
    let mut b = ObjectBuilder::new();
    b.field("help", JsonValue::string(help));
    let ghost e0 = entries_view(b.entries@);
    if required {
        b.field("required", JsonValue::Bool(true));
    }
    let ghost e1 = entries_view(b.entries@);
    if defaults.len() > 0 {
        b.field("default", JsonValue::string(join_lines(defaults, ", ").as_str()));
    }
    proof {
        let rq: Seq<(Seq<char>, Json)> = if required { seq![("required"@, Json::Bool(true))] } else { Seq::empty() };
        let df: Seq<(Seq<char>, Json)> = if views(defaults@).len() > 0 {
            seq![("default"@, Json::Str(join_seqs(views(defaults@), ", "@)))]
        } else {
            Seq::empty()
        };
        assert(e1 =~= e0 + rq);
        assert(entries_view(b.entries@) =~= seq![("help"@, Json::Str(help@))] + rq + df);
    }
    b.build()
}

/// Subcommands keyed by name, each with its summary.
pub open spec fn commands_map(cs: Seq<HelpCommandEntry>) -> Json {
    Json::Object(Seq::new(cs.len(), |i: int| (cs[i].name@, Json::Object(seq![("summary"@, Json::Str(cs[i].summary@))]))))
}

/// Arguments keyed by name.
pub open spec fn arguments_map(a: Seq<HelpArgumentEntry>) -> Json {
    Json::Object(Seq::new(a.len(), |i: int| (a[i].name@, help_value_json(a[i].help@, a[i].required, views(a[i].defaults@)))))
}

/// Options keyed by flag.
pub open spec fn options_map(o: Seq<HelpOptionEntry>) -> Json {
    Json::Object(Seq::new(o.len(), |i: int| (o[i].flag@, help_value_json(o[i].help@, o[i].required, views(o[i].defaults@)))))
}

/// Subcommands keyed by name.
pub fn serialize_commands_as_map(entries: &Vec<HelpCommandEntry>) -> (r: JsonValue)
    ensures
        r@ == commands_map(entries@),
{
    let mut out: Vec<(String, JsonValue)> = Vec::new();
    let mut i: usize = 0;
    while i < entries.len()
        invariant
            i <= entries@.len(),
            entries_view(out@) == Seq::new(i as nat, |k: int| (entries@[k].name@, Json::Object(seq![("summary"@, Json::Str(entries@[k].summary@))]))),
        decreases entries@.len() - i,
    {
        let mut o = ObjectBuilder::new();
        o.field("summary", JsonValue::string(entries[i].summary.as_str()));
        assert(entries_view(o.entries@) =~= seq![("summary"@, Json::Str(entries@[i as int].summary@))]);
        let v = o.build();
        let k = owned(entries[i].name.as_str());
        proof {
            lemma_entries_view_push(out@, k, v);
        }
        out.push((k, v));
        i = i + 1;
        assert(entries_view(out@) =~= Seq::new(i as nat, |k: int| (entries@[k].name@, Json::Object(seq![("summary"@, Json::Str(entries@[k].summary@))]))));
    }
    JsonValue::Object(out)
}

/// Arguments keyed by name.
pub fn serialize_arguments_as_map(entries: &Vec<HelpArgumentEntry>) -> (r: JsonValue)
    ensures
        r@ == arguments_map(entries@),
{
    let mut out: Vec<(String, JsonValue)> = Vec::new();
    let mut i: usize = 0;
    while i < entries.len()
        invariant
            i <= entries@.len(),
            entries_view(out@) == Seq::new(i as nat, |k: int| (entries@[k].name@, help_value_json(entries@[k].help@, entries@[k].required, views(entries@[k].defaults@)))),
        decreases entries@.len() - i,
    {
        let v = help_value_object(entries[i].help.as_str(), entries[i].required, &entries[i].defaults);
        let k = owned(entries[i].name.as_str());
        proof {
            lemma_entries_view_push(out@, k, v);
        }
        out.push((k, v));
        i = i + 1;
        assert(entries_view(out@) =~= Seq::new(i as nat, |k: int| (entries@[k].name@, help_value_json(entries@[k].help@, entries@[k].required, views(entries@[k].defaults@)))));
    }
    JsonValue::Object(out)
}

/// Options keyed by flag.
pub fn serialize_options_as_map(entries: &Vec<HelpOptionEntry>) -> (r: JsonValue)
    ensures
        r@ == options_map(entries@),
{
    let mut out: Vec<(String, JsonValue)> = Vec::new();
    let mut i: usize = 0;
    while i < entries.len()
        invariant
            i <= entries@.len(),
            entries_view(out@) == Seq::new(i as nat, |k: int| (entries@[k].flag@, help_value_json(entries@[k].help@, entries@[k].required, views(entries@[k].defaults@)))),
        decreases entries@.len() - i,
    {
        let v = help_value_object(entries[i].help.as_str(), entries[i].required, &entries[i].defaults);
        let k = owned(entries[i].flag.as_str());
        proof {
            lemma_entries_view_push(out@, k, v);
        }
        out.push((k, v));
        i = i + 1;
        assert(entries_view(out@) =~= Seq::new(i as nat, |k: int| (entries@[k].flag@, help_value_json(entries@[k].help@, entries@[k].required, views(entries@[k].defaults@)))));
    }
    JsonValue::Object(out)
}

/// The JSON of a runtime state section; empty parts left out.
pub open spec fn runtime_state_json(s: HelpRuntimeState) -> Json {
    Json::Object(nonempty_entry("directories"@, views(s.directories@)) + opt_entry("context_behavior"@, s.context_behavior))
}

/// An entry present only when its list is not empty.
pub open spec fn map_entry<T>(key: Seq<char>, items: Seq<T>, value: Json) -> Seq<(Seq<char>, Json)> {
    if items.len() > 0 { seq![(key, value)] } else { Seq::empty() }
}

/// The `runtime_state` entry, left out when absent.
pub open spec fn runtime_entry(s: Option<HelpRuntimeState>) -> Seq<(Seq<char>, Json)> {
    match s {
        Some(x) => seq![("runtime_state"@, runtime_state_json(x))],
        None => Seq::empty(),
    }
}

/// The JSON of a help document: command, summary and usage, then every
/// section that is not empty.
pub open spec fn help_document_json(d: HelpDocument) -> Json {
    Json::Object(seq![
        ("command"@, Json::Str(d.command@)),
        ("summary"@, Json::Str(d.summary@)),
        ("usage"@, Json::Str(d.usage@)),
    ]
        + map_entries(d) + list_entries(d) + runtime_entry(d.runtime_state))
}

/// The list sections of a document, each left out when empty.
pub open spec fn list_entries(d: HelpDocument) -> Seq<(Seq<char>, Json)> {
    nonempty_entry("before_you_run_it"@, views(d.before_you_run_it@))
        + nonempty_entry("examples"@, views(d.examples@))
        + nonempty_entry("see_also"@, views(d.see_also@))
        + nonempty_entry("try_next"@, views(d.try_next@))
        + nonempty_entry("default_behavior"@, views(d.default_behavior@))
        + nonempty_entry("supported_output_formats"@, views(d.supported_output_formats@))
}

/// The map sections of a document, each left out when empty.
pub open spec fn map_entries(d: HelpDocument) -> Seq<(Seq<char>, Json)> {
    map_entry("commands"@, d.commands@, commands_map(d.commands@))
        + map_entry("arguments"@, d.arguments@, arguments_map(d.arguments@))
        + map_entry("options"@, d.options@, options_map(d.options@))
}

/// Appends the map sections.
fn push_map_entries(d: &HelpDocument, b: &mut ObjectBuilder)
    ensures
        entries_view(final(b).entries@) == entries_view(old(b).entries@) + map_entries(*d),
{
    let ghost e0 = entries_view(b.entries@);
    if d.commands.len() > 0 {
        b.field("commands", serialize_commands_as_map(&d.commands));
    }
    let ghost e1 = entries_view(b.entries@);
    if d.arguments.len() > 0 {
        b.field("arguments", serialize_arguments_as_map(&d.arguments));
    }
    let ghost e2 = entries_view(b.entries@);
    if d.options.len() > 0 {
        b.field("options", serialize_options_as_map(&d.options));
    }
    proof {
        let c = map_entry("commands"@, d.commands@, commands_map(d.commands@));
        let a = map_entry("arguments"@, d.arguments@, arguments_map(d.arguments@));
        let o = map_entry("options"@, d.options@, options_map(d.options@));
        assert(e1 =~= e0 + c);
        assert(e2 =~= e0 + c + a);
        assert(entries_view(b.entries@) =~= e0 + c + a + o);
        assert(map_entries(*d) =~= c + a + o);
    }
}

/// Appends the list sections.
fn push_list_entries(d: &HelpDocument, b: &mut ObjectBuilder)
    ensures
        entries_view(final(b).entries@) == entries_view(old(b).entries@) + list_entries(*d),
{
    let ghost e0 = entries_view(b.entries@);
    b.field_nonempty("before_you_run_it", &d.before_you_run_it);
    b.field_nonempty("examples", &d.examples);
    let ghost e2 = entries_view(b.entries@);
    b.field_nonempty("see_also", &d.see_also);
    b.field_nonempty("try_next", &d.try_next);
    let ghost e4 = entries_view(b.entries@);
    b.field_nonempty("default_behavior", &d.default_behavior);
    b.field_nonempty("supported_output_formats", &d.supported_output_formats);
    proof {
        let l1 = nonempty_entry("before_you_run_it"@, views(d.before_you_run_it@));
        let l2 = nonempty_entry("examples"@, views(d.examples@));
        let l3 = nonempty_entry("see_also"@, views(d.see_also@));
        let l4 = nonempty_entry("try_next"@, views(d.try_next@));
        let l5 = nonempty_entry("default_behavior"@, views(d.default_behavior@));
        let l6 = nonempty_entry("supported_output_formats"@, views(d.supported_output_formats@));
        assert(e2 =~= e0 + (l1 + l2));
        assert(e4 =~= e2 + (l3 + l4));
        assert(entries_view(b.entries@) =~= e4 + (l5 + l6));
        assert(list_entries(*d) =~= l1 + l2 + l3 + l4 + l5 + l6);
        assert(entries_view(b.entries@) =~= e0 + list_entries(*d));
    }
}

impl HelpDocument {
    /// The JSON form of the document.
    pub fn to_json(&self) -> (r: JsonValue)
        ensures
            r@ == help_document_json(*self),
    {
        let mut b = ObjectBuilder::new();
        b.field("command", JsonValue::string(self.command.as_str()));
        b.field("summary", JsonValue::string(self.summary.as_str()));
        b.field("usage", JsonValue::string(self.usage.as_str()));
        let ghost e0 = entries_view(b.entries@);
        push_map_entries(self, &mut b);
        push_list_entries(self, &mut b);
        let ghost e1 = entries_view(b.entries@);
        match &self.runtime_state {
            Some(s) => {
                let mut rb = ObjectBuilder::new();
                rb.field_nonempty("directories", &s.directories);
                rb.field_opt("context_behavior", &s.context_behavior);
                assert(entries_view(rb.entries@) =~= nonempty_entry("directories"@, views(s.directories@)) + opt_entry("context_behavior"@, s.context_behavior));
                b.field("runtime_state", rb.build());
            },
            None => {},
        }
        proof {
            assert(entries_view(b.entries@) =~= e1 + runtime_entry(self.runtime_state));
            assert(help_document_json(*self)->Object_0 =~= e0 + map_entries(*self) + list_entries(*self) + runtime_entry(self.runtime_state));
        }
        b.build()
    }
}

} // verus!
