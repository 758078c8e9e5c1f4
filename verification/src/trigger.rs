//! Trigger types: the supported set, and the selection of the types to launch.

use vstd::prelude::*;
use crate::descriptor::{trigger_types, AppDescriptor};
use crate::text::{join2, owned, quoted, quoted_text, str_eq};

verus! {

pub const HTTP_TRIGGER_TYPE: &'static str = "http";

pub const REDIS_TRIGGER_TYPE: &'static str = "redis";

pub const SQS_TRIGGER_TYPE: &'static str = "sqs";

pub const MQTT_TRIGGER_TYPE: &'static str = "mqtt";

pub const COMMAND_TRIGGER_TYPE: &'static str = "command";

/// A trigger type that the shim can run.
#[derive(Clone, Copy, Debug, PartialEq, Eq, Structural)]
pub enum TriggerKind {
    Http,
    Redis,
    Sqs,
    Command,
    Mqtt,
}

impl TriggerKind {
    /// The tag by which application descriptors name this trigger type.
    pub open spec fn spec_tag(self) -> Seq<char> {
        match self {
            TriggerKind::Http => HTTP_TRIGGER_TYPE@,
            TriggerKind::Redis => REDIS_TRIGGER_TYPE@,
            TriggerKind::Sqs => SQS_TRIGGER_TYPE@,
            TriggerKind::Command => COMMAND_TRIGGER_TYPE@,
            TriggerKind::Mqtt => MQTT_TRIGGER_TYPE@,
        }
    }

    pub fn tag(self) -> (tag: &'static str)
        ensures
            tag@ == self.spec_tag(),
    {
        match self {
            TriggerKind::Http => HTTP_TRIGGER_TYPE,
            TriggerKind::Redis => REDIS_TRIGGER_TYPE,
            TriggerKind::Sqs => SQS_TRIGGER_TYPE,
            TriggerKind::Command => COMMAND_TRIGGER_TYPE,
            TriggerKind::Mqtt => MQTT_TRIGGER_TYPE,
        }
    }
}

/// The supported trigger type that a tag names, if it names one. The comparison is exact.
pub open spec fn kind_of_tag(tag: Seq<char>) -> Option<TriggerKind> {
    if tag == HTTP_TRIGGER_TYPE@ {
        Some(TriggerKind::Http)
    } else if tag == REDIS_TRIGGER_TYPE@ {
        Some(TriggerKind::Redis)
    } else if tag == SQS_TRIGGER_TYPE@ {
        Some(TriggerKind::Sqs)
    } else if tag == COMMAND_TRIGGER_TYPE@ {
        Some(TriggerKind::Command)
    } else if tag == MQTT_TRIGGER_TYPE@ {
        Some(TriggerKind::Mqtt)
    } else {
        None
    }
}

/// The five tags are pairwise different, so each kind is found again by its own tag.
pub proof fn lemma_tags_distinct()
    ensures
        forall|k: TriggerKind| kind_of_tag(#[trigger] k.spec_tag()) == Some(k),
{
    reveal_strlit("http");
    reveal_strlit("redis");
    reveal_strlit("sqs");
    reveal_strlit("mqtt");
    reveal_strlit("command");
    assert(HTTP_TRIGGER_TYPE@.len() == 4 && HTTP_TRIGGER_TYPE@[0] == 'h');
    assert(REDIS_TRIGGER_TYPE@.len() == 5);
    assert(SQS_TRIGGER_TYPE@.len() == 3);
    assert(MQTT_TRIGGER_TYPE@.len() == 4 && MQTT_TRIGGER_TYPE@[0] == 'm');
}

/// Looks a tag up in the supported set.
pub fn trigger_kind(tag: &str) -> (kind: Option<TriggerKind>)
    ensures
        kind == kind_of_tag(tag@),
{
    if str_eq(tag, HTTP_TRIGGER_TYPE) {
        Some(TriggerKind::Http)
    } else if str_eq(tag, REDIS_TRIGGER_TYPE) {
        Some(TriggerKind::Redis)
    } else if str_eq(tag, SQS_TRIGGER_TYPE) {
        Some(TriggerKind::Sqs)
    } else if str_eq(tag, COMMAND_TRIGGER_TYPE) {
        Some(TriggerKind::Command)
    } else if str_eq(tag, MQTT_TRIGGER_TYPE) {
        Some(TriggerKind::Mqtt)
    } else {
        None
    }
}

/// A declared trigger type is not in the supported set.
#[derive(Clone, Debug, PartialEq, Eq)]
pub struct UnsupportedTriggerKind {
    /// The tag that was found.
    pub tag: String,
}

impl UnsupportedTriggerKind {
    pub open spec fn spec_message(self) -> Seq<char> {
        "Only Http, Redis, MQTT, SQS, and Command triggers are currently supported. Found unsupported trigger: "@
            + quoted_text(self.tag@)
    }

    /// The error in words; it names the tag that was found.
    pub fn message(&self) -> (text: String)
        ensures
            text@ == self.spec_message(),
    {
        let tag = quoted(self.tag.as_str());
        join2(
            "Only Http, Redis, MQTT, SQS, and Command triggers are currently supported. Found unsupported trigger: ",
            tag.as_str(),
        )
    }
}

/// The index of the first tag that names no supported trigger type, or the number of
/// tags where every one of them is supported.
pub open spec fn first_unsupported(tags: Seq<Seq<char>>) -> int
    decreases tags.len(),
{
    if tags.len() == 0 {
        0
    } else if kind_of_tag(tags.first()) is None {
        0
    } else {
        1 + first_unsupported(tags.drop_first())
    }
}

/// The kinds that the tags name, each once, in the order in which they first occur.
/// Tags that name no supported kind are passed over.
pub open spec fn distinct_kinds(tags: Seq<Seq<char>>) -> Seq<TriggerKind>
    decreases tags.len(),
{
    if tags.len() == 0 {
        Seq::empty()
    } else {
        let before = distinct_kinds(tags.drop_last());
        match kind_of_tag(tags.last()) {
            Some(kind) => if before.contains(kind) {
                before
            } else {
                before.push(kind)
            },
            None => before,
        }
    }
}

/// The launch set of the declared trigger types: [`distinct_kinds`] where all are
/// supported, else the first tag that is not.
pub open spec fn selection(tags: Seq<Seq<char>>) -> Result<Seq<TriggerKind>, Seq<char>> {
    if first_unsupported(tags) < tags.len() {
        Err(tags[first_unsupported(tags)])
    } else {
        Ok(distinct_kinds(tags))
    }
}

/// `first_unsupported` is the least index of an unsupported tag.
pub proof fn lemma_first_unsupported(tags: Seq<Seq<char>>)
    ensures
        0 <= first_unsupported(tags) <= tags.len(),
        forall|i: int| 0 <= i < first_unsupported(tags) ==> kind_of_tag(tags[i]) is Some,
        first_unsupported(tags) < tags.len() ==> kind_of_tag(tags[first_unsupported(tags)]) is None,
    decreases tags.len(),
{
    if tags.len() > 0 && kind_of_tag(tags.first()) is Some {
        let rest = tags.drop_first();
        lemma_first_unsupported(rest);
        assert forall|i: int| 0 <= i < first_unsupported(tags) implies kind_of_tag(
            tags[i],
        ) is Some by {
            if i > 0 {
                assert(rest[i - 1] == tags[i]);
            }
        }
    }
}

/// The launch set holds no kind twice, and it holds a kind exactly if some tag names it.
pub proof fn lemma_distinct_kinds(tags: Seq<Seq<char>>)
    ensures
        distinct_kinds(tags).no_duplicates(),
        forall|kind: TriggerKind| #[trigger]
            distinct_kinds(tags).contains(kind) <==> exists|i: int|
                0 <= i < tags.len() && kind_of_tag(tags[i]) == Some(kind),
    decreases tags.len(),
{
    if tags.len() > 0 {
        let init = tags.drop_last();
        let before = distinct_kinds(init);
        let last = tags.len() - 1;
        lemma_distinct_kinds(init);
        assert forall|kind: TriggerKind| #[trigger]
            distinct_kinds(tags).contains(kind) <==> exists|i: int|
                0 <= i < tags.len() && kind_of_tag(tags[i]) == Some(kind) by {
            if distinct_kinds(tags).contains(kind) {
                if before.contains(kind) {
                    let i = choose|i: int| 0 <= i < init.len() && kind_of_tag(init[i]) == Some(kind);
                    assert(tags[i] == init[i]);
                } else {
                    let at = choose|at: int|
                        0 <= at < distinct_kinds(tags).len() && distinct_kinds(tags)[at] == kind;
                    assert(kind_of_tag(tags[last]) == Some(kind));
                }
            }
            if exists|i: int| 0 <= i < tags.len() && kind_of_tag(tags[i]) == Some(kind) {
                let i = choose|i: int| 0 <= i < tags.len() && kind_of_tag(tags[i]) == Some(kind);
                if i < last {
                    assert(init[i] == tags[i]);
                    let at = choose|at: int| 0 <= at < before.len() && before[at] == kind;
                    assert(distinct_kinds(tags)[at] == kind);
                } else {
                    if !before.contains(kind) {
                        assert(distinct_kinds(tags)[before.len() as int] == kind);
                    }
                }
            }
        }
    }
}

/// Puts `kind` at the end of `kinds` unless it is there already.
fn insert_kind(kinds: &mut Vec<TriggerKind>, kind: TriggerKind)
    ensures
        final(kinds)@ == if old(kinds)@.contains(kind) {
            old(kinds)@
        } else {
            old(kinds)@.push(kind)
        },
{
    let mut i: usize = 0;
    while i < kinds.len()
        invariant
            i <= kinds.len(),
            kinds@ == old(kinds)@,
            forall|j: int| 0 <= j < i ==> kinds[j] != kind,
        decreases kinds.len() - i,
    {
        if kinds[i] == kind {
            return ;
        }
        i += 1;
    }
    kinds.push(kind);
}

/// Selects the trigger types to launch for an application.
///
/// The declared triggers are examined in their order. The first whose type is not in
/// the supported set fails the selection, and the error names its tag. Where all are
/// supported the result holds each declared type once, in the order of first occurrence.
pub fn get_supported_triggers(app: &AppDescriptor) -> (result: Result<
    Vec<TriggerKind>,
    UnsupportedTriggerKind,
>)
    ensures
        match result {
            Ok(kinds) => selection(trigger_types(app)) == Ok::<Seq<TriggerKind>, Seq<char>>(
                kinds@,
            ),
            Err(error) => selection(trigger_types(app)) == Err::<Seq<TriggerKind>, Seq<char>>(
                error.tag@,
            ),
        },
{
    let ghost tags = trigger_types(app);
    let mut kinds: Vec<TriggerKind> = Vec::new();
    let mut i: usize = 0;
    while i < app.triggers.len()
        invariant
            tags == trigger_types(app),
            tags.len() == app.triggers.len(),
            i <= app.triggers.len(),
            kinds@ == distinct_kinds(tags.take(i as int)),
            forall|j: int| 0 <= j < i ==> kind_of_tag(tags[j]) is Some,
        decreases app.triggers.len() - i,
    {
        proof {
            assert(tags.take(i + 1).drop_last() == tags.take(i as int));
            assert(tags.take(i + 1).last() == tags[i as int]);
            lemma_first_unsupported(tags);
        }
        match trigger_kind(app.triggers[i].trigger_type.as_str()) {
            Some(kind) => {
                insert_kind(&mut kinds, kind);
            },
            None => {
                return Err(
                    UnsupportedTriggerKind { tag: owned(app.triggers[i].trigger_type.as_str()) },
                );
            },
        }
        i += 1;
    }
    proof {
        lemma_first_unsupported(tags);
        assert(tags.take(i as int) == tags);
    }
    Ok(kinds)
}

} // verus!
