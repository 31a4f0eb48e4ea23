//! The configuration file's text: a JSON object whose members `opacity`,
//! `enabled` and `launchOnStartup` are all optional. Reading and printing
//! JSON is left to `serde_json`; which members count, and what they must
//! hold, is decided here.

use crate::config::{
    clamp_spec, clamp_stored_opacity, in_opacity_range, load_config, loaded_config,
    ConfigDocument, OverlayConfig,
};
use vstd::prelude::*;

verus! {

/// Name of the member that holds the opacity.
pub const OPACITY_KEY: &'static str = "opacity";

/// Name of the member that says whether the overlay is enabled.
pub const ENABLED_KEY: &'static str = "enabled";

/// Name of the member that says whether the program starts with the session.
pub const LAUNCH_ON_STARTUP_KEY: &'static str = "launchOnStartup";

/// One member of a JSON object, as far as a configuration reads it: its name
/// and what its value is when taken as a signed 64-bit integer, as a boolean
/// and as an unsigned 64-bit integer. A value that cannot be taken as one of
/// these has `None` there: a member that is no integer and no boolean has
/// `None` three times, and an integer above the signed range is unsigned only.
#[derive(Debug, PartialEq, Eq)]
pub struct Member {
    pub name: String,
    pub integer: Option<i64>,
    pub boolean: Option<bool>,
    pub unsigned: Option<u64>,
}

/// A member in specifications: name, signed integer value, boolean value,
/// unsigned integer value.
pub type MemberView = (Seq<char>, Option<i64>, Option<bool>, Option<u64>);

impl View for Member {
    type V = MemberView;

    open spec fn view(&self) -> MemberView {
        (self.name@, self.integer, self.boolean, self.unsigned)
    }
}

/// The views of a list of members, in order.
pub open spec fn member_views(members: Seq<Member>) -> Seq<MemberView> {
    members.map_values(|member: Member| member@)
}

/// The members of the JSON object that `text` holds, as `serde_json` reads
/// them, or `None` where `text` is not one JSON object.
pub uninterp spec fn json_object(text: Seq<char>) -> Option<Seq<MemberView>>;

/// The text that `serde_json` prints, in its indented form, for the JSON
/// object with the given integer members and boolean members.
pub uninterp spec fn pretty_object(
    integers: Seq<(Seq<char>, i64)>,
    booleans: Seq<(Seq<char>, bool)>,
) -> Seq<char>;

/// Parses `text` with `serde_json::from_str` and hands out the members of the
/// object it holds; `None` where the parser refuses the text or the value is
/// no object. The contract gives the outcome its name and claims nothing else
/// of it: the same text always parses alike.
#[verifier::external_body]
fn parse_object(text: &str) -> (members: Option<Vec<Member>>)
    ensures
        match members {
            Some(list) => json_object(text@) == Some(member_views(list@)),
            None => json_object(text@) is None,
        },
{
    let value: serde_json::Value = serde_json::from_str(text).ok()?;
    let object = value.as_object()?;
    Some(
        object.iter().map(
            |(name, member)|
                Member {
                    name: name.clone(),
                    integer: member.as_i64(),
                    boolean: member.as_bool(),
                    unsigned: member.as_u64(),
                },
        ).collect(),
    )
}

/// The views of a list of named values, in order.
pub open spec fn named_views<T>(list: Seq<(String, T)>) -> Seq<(Seq<char>, T)> {
    list.map_values(|pair: (String, T)| (pair.0@, pair.1))
}

/// Prints the JSON object with the given members with
/// `serde_json::to_string_pretty`. The contract gives the text its name and
/// claims nothing else of it: the same members always print alike.
#[verifier::external_body]
fn print_object(integers: &Vec<(String, i64)>, booleans: &Vec<(String, bool)>) -> (text: String)
    ensures
        text@ == pretty_object(named_views(integers@), named_views(booleans@)),
{
    let mut object = serde_json::Map::new();
    for (name, value) in integers {
        object.insert(name.clone(), serde_json::Value::from(*value));
    }
    for (name, value) in booleans {
        object.insert(name.clone(), serde_json::Value::from(*value));
    }
    serde_json::to_string_pretty(&object).unwrap_or_default()
}

/// The first member of `members` that is called `name`, if there is one.
pub open spec fn first_named(members: Seq<MemberView>, name: Seq<char>) -> Option<MemberView>
    decreases members.len(),
{
    if members.len() == 0 {
        None
    } else if members[0].0 == name {
        Some(members[0])
    } else {
        first_named(members.subrange(1, members.len() as int), name)
    }
}

/// Whether the member, if there is one, is an integer, signed or unsigned.
pub open spec fn integer_or_absent(member: Option<MemberView>) -> bool {
    member matches Some(found) ==> found.1 is Some || found.3 is Some
}

/// Whether the member, if there is one, is a boolean.
pub open spec fn boolean_or_absent(member: Option<MemberView>) -> bool {
    member matches Some(found) ==> found.2 is Some
}

/// The integer value of the member, if there is a member and it has one. An
/// integer above the signed range counts as the largest signed integer: for
/// an opacity this makes no difference, since both clamp alike.
pub open spec fn integer_of(member: Option<MemberView>) -> Option<i64> {
    match member {
        Some(found) => match found.1 {
            Some(value) => Some(value),
            None => match found.3 {
                Some(_) => Some(i64::MAX),
                None => None,
            },
        },
        None => None,
    }
}

/// The boolean value of the member, if there is a member and it has one.
pub open spec fn boolean_of(member: Option<MemberView>) -> Option<bool> {
    match member {
        Some(found) => found.2,
        None => None,
    }
}

/// The document that an object with the given members holds. Each of the
/// three members may be absent; one that is present must be of its kind, an
/// integer for the opacity and a boolean for the two flags, or the object is
/// no configuration at all. Members of other names are passed over.
pub open spec fn document_in(members: Seq<MemberView>) -> Option<ConfigDocument> {
    let opacity = first_named(members, OPACITY_KEY@);
    let enabled = first_named(members, ENABLED_KEY@);
    let launch = first_named(members, LAUNCH_ON_STARTUP_KEY@);
    if integer_or_absent(opacity) && boolean_or_absent(enabled) && boolean_or_absent(launch) {
        Some(
            ConfigDocument {
                opacity: integer_of(opacity),
                enabled: boolean_of(enabled),
                launch_on_startup: boolean_of(launch),
            },
        )
    } else {
        None
    }
}

/// The document that `text` holds: that of the members of its JSON object,
/// or nothing where the text is no JSON object or the object no
/// configuration.
pub open spec fn parsed(text: Seq<char>) -> Option<ConfigDocument> {
    match json_object(text) {
        Some(members) => document_in(members),
        None => None,
    }
}

/// The integer members written for a document: the opacity, clamped, where
/// the document holds one.
pub open spec fn integers_of(document: ConfigDocument) -> Seq<(Seq<char>, i64)> {
    match document.opacity {
        Some(value) => seq![(OPACITY_KEY@, clamp_spec(value as int) as i64)],
        None => Seq::empty(),
    }
}

/// The document as it is written: the opacity clamped, the rest as it is.
pub open spec fn written_form(document: ConfigDocument) -> ConfigDocument {
    ConfigDocument {
        opacity: match document.opacity {
            Some(value) => Some(clamp_spec(value as int) as i64),
            None => None,
        },
        ..document
    }
}

/// The boolean members written for a document, each only where the document
/// holds it.
pub open spec fn booleans_of(document: ConfigDocument) -> Seq<(Seq<char>, bool)> {
    let enabled = match document.enabled {
        Some(flag) => seq![(ENABLED_KEY@, flag)],
        None => Seq::empty(),
    };
    let launch = match document.launch_on_startup {
        Some(flag) => seq![(LAUNCH_ON_STARTUP_KEY@, flag)],
        None => Seq::empty(),
    };
    enabled + launch
}

/// Finds the first member called `name`.
pub fn find_member(members: &Vec<Member>, name: &str) -> (at: Option<usize>)
    ensures
        match at {
            Some(i) => i < members@.len() && first_named(member_views(members@), name@) == Some(
                members@[i as int]@,
            ),
            None => first_named(member_views(members@), name@) is None,
        },
{
    let key = name.to_string();
    let ghost all = member_views(members@);
    let mut i: usize = 0;
    assert(all.subrange(0, all.len() as int) =~= all);
    while i < members.len()
        invariant
            i <= members@.len(),
            all == member_views(members@),
            key@ == name@,
            first_named(all, name@) == first_named(all.subrange(i as int, all.len() as int), name@),
        decreases members@.len() - i,
    {
        let ghost rest = all.subrange(i as int, all.len() as int);
        assert(rest[0] == members@[i as int]@);
        if members[i].name == key {
            return Some(i);
        }
        assert(rest.subrange(1, rest.len() as int) =~= all.subrange(i + 1, all.len() as int));
        i = i + 1;
    }
    None
}

/// Reads a document out of the members of a JSON object.
pub fn document_from_members(members: &Vec<Member>) -> (document: Option<ConfigDocument>)
    ensures
        document == document_in(member_views(members@)),
{
    let opacity = match find_member(members, OPACITY_KEY) {
        Some(i) => match members[i].integer {
            Some(value) => Some(value),
            None => match members[i].unsigned {
                Some(_) => Some(i64::MAX),
                None => {
                    return None;
                },
            },
        },
        None => None,
    };
    let enabled = match find_member(members, ENABLED_KEY) {
        Some(i) => match members[i].boolean {
            Some(flag) => Some(flag),
            None => {
                return None;
            },
        },
        None => None,
    };
    let launch_on_startup = match find_member(members, LAUNCH_ON_STARTUP_KEY) {
        Some(i) => match members[i].boolean {
            Some(flag) => Some(flag),
            None => {
                return None;
            },
        },
        None => None,
    };
    Some(ConfigDocument { opacity, enabled, launch_on_startup })
}

/// Parses the text of a configuration file.
pub fn parse_document(text: &str) -> (document: Option<ConfigDocument>)
    ensures
        document == parsed(text@),
{
    match parse_object(text) {
        Some(members) => document_from_members(&members),
        None => None,
    }
}

/// The configuration to work with, given the text of the configuration file,
/// or `None` where the file is missing or cannot be read. Text that is no
/// configuration gives the defaults, as a missing file does.
pub fn config_from_text(text: Option<&str>) -> (config: OverlayConfig)
    ensures
        config == loaded_config(
            match text {
                Some(content) => parsed(content@),
                None => None,
            },
        ),
        config.well_formed(),
{
    match text {
        Some(content) => load_config(parse_document(content)),
        None => load_config(None),
    }
}

/// Prints a document as the text of a configuration file: a member for each
/// field that the document holds. The opacity is clamped on the way, so that
/// no opacity out of the range is ever written.
pub fn render_document(document: &ConfigDocument) -> (text: String)
    ensures
        text@ == pretty_object(integers_of(*document), booleans_of(*document)),
{
    let mut integers: Vec<(String, i64)> = Vec::new();
    let mut booleans: Vec<(String, bool)> = Vec::new();
    if let Some(value) = document.opacity {
        integers.push((OPACITY_KEY.to_string(), clamp_stored_opacity(value) as i64));
    }
    if let Some(flag) = document.enabled {
        booleans.push((ENABLED_KEY.to_string(), flag));
    }
    if let Some(flag) = document.launch_on_startup {
        booleans.push((LAUNCH_ON_STARTUP_KEY.to_string(), flag));
    }
    assert(named_views(integers@) =~= integers_of(*document));
    assert(named_views(booleans@) =~= booleans_of(*document));
    print_object(&integers, &booleans)
}

/// Prints a configuration as the text of a configuration file, its opacity
/// clamped.
pub fn render_config(config: &OverlayConfig) -> (text: String)
    ensures
        text@ == pretty_object(
            integers_of(crate::config::document_of(*config)),
            booleans_of(crate::config::document_of(*config)),
        ),
{
    render_document(&config.to_document())
}

/// The members that an object holds once the given integer members and
/// boolean members have been put into it, in that order.
pub open spec fn as_members(
    integers: Seq<(Seq<char>, i64)>,
    booleans: Seq<(Seq<char>, bool)>,
) -> Seq<MemberView> {
    integers.map_values(
        |pair: (Seq<char>, i64)|
            (
                pair.0,
                Some(pair.1),
                None::<bool>,
                if pair.1 >= 0 {
                    Some(pair.1 as u64)
                } else {
                    None
                },
            ),
    ) + booleans.map_values(
        |pair: (Seq<char>, bool)| (pair.0, None::<i64>, Some(pair.1), None::<u64>),
    )
}

/// Whether no two members of `members` share a name.
pub open spec fn distinct_names(members: Seq<MemberView>) -> bool {
    forall|i: int, j: int|
        0 <= i < j < members.len() ==> (#[trigger] members[i]).0 != (#[trigger] members[j]).0
}

/// The three member names of a configuration differ from one another.
pub proof fn member_names_differ()
    ensures
        OPACITY_KEY@ != ENABLED_KEY@,
        OPACITY_KEY@ != LAUNCH_ON_STARTUP_KEY@,
        ENABLED_KEY@ != LAUNCH_ON_STARTUP_KEY@,
{
    reveal_strlit("opacity");
    reveal_strlit("enabled");
    reveal_strlit("launchOnStartup");
    assert(OPACITY_KEY@[0] == 'o');
    assert(ENABLED_KEY@[0] == 'e');
    assert(LAUNCH_ON_STARTUP_KEY@[0] == 'l');
}

/// A member found by name is a member of that name, and where no member is
/// found none has the name.
pub proof fn first_named_is_a_member(members: Seq<MemberView>, name: Seq<char>)
    ensures
        first_named(members, name) matches Some(found) ==> found.0 == name && members.contains(
            found,
        ),
        first_named(members, name) is None ==> forall|i: int|
            0 <= i < members.len() ==> (#[trigger] members[i]).0 != name,
    decreases members.len(),
{
    if members.len() > 0 && members[0].0 != name {
        let rest = members.subrange(1, members.len() as int);
        first_named_is_a_member(rest, name);
        if let Some(found) = first_named(rest, name) {
            let i = choose|i: int| 0 <= i < rest.len() && rest[i] == found;
            assert(members[i + 1] == found);
        } else {
            assert forall|i: int| 0 <= i < members.len() implies (#[trigger] members[i]).0
                != name by {
                if i > 0 {
                    assert(rest[i - 1] == members[i]);
                }
            }
        }
    }
}

/// Where no two members share a name, the member found by a name is the one
/// member of that name, wherever it stands.
pub proof fn distinct_names_find_the_member(
    members: Seq<MemberView>,
    member: MemberView,
)
    requires
        distinct_names(members),
        members.contains(member),
    ensures
        first_named(members, member.0) == Some(member),
{
    first_named_is_a_member(members, member.0);
    let at = choose|i: int| 0 <= i < members.len() && members[i] == member;
    match first_named(members, member.0) {
        Some(found) => {
            let i = choose|i: int| 0 <= i < members.len() && members[i] == found;
            if i != at {
                assert(members[i].0 == members[at].0);
            }
        },
        None => {
            assert(members[at].0 == member.0);
        },
    }
}

/// Reading a document does not depend on the order in which an object hands
/// out its members: two lists without repeated names that hold the same
/// members give the same document.
pub proof fn reading_ignores_the_order(first: Seq<MemberView>, second: Seq<MemberView>)
    requires
        distinct_names(first),
        distinct_names(second),
        forall|member: MemberView| first.contains(member) <==> second.contains(member),
    ensures
        document_in(first) == document_in(second),
{
    assert forall|name: Seq<char>| first_named(first, name) == first_named(second, name) by {
        first_named_is_a_member(first, name);
        first_named_is_a_member(second, name);
        match first_named(first, name) {
            Some(found) => {
                assert(second.contains(found));
                distinct_names_find_the_member(second, found);
            },
            None => {
                if let Some(found) = first_named(second, name) {
                    assert(first.contains(found));
                    let i = choose|i: int| 0 <= i < first.len() && first[i] == found;
                    assert(first[i].0 == name);
                }
            },
        }
    }
}

/// Every integer written for a document is an opacity of the range.
pub proof fn written_opacity_is_clamped(document: ConfigDocument, i: int)
    requires
        0 <= i < integers_of(document).len(),
    ensures
        integers_of(document).len() == 1,
        integers_of(document)[i].0 == OPACITY_KEY@,
        in_opacity_range(integers_of(document)[i].1 as int),
        document.opacity matches Some(value) && integers_of(document)[i].1 == clamp_spec(
            value as int,
        ),
{
}

/// The members written for a document give the document back when they are
/// read, its opacity clamped: nothing else is lost between `render_document`
/// and `parse_document` but what the printing and the parsing of JSON
/// themselves may lose. A document whose opacity lies in the range, such as
/// the one that stores a configuration, comes back as it is.
pub proof fn written_members_read_back(document: ConfigDocument)
    ensures
        distinct_names(as_members(integers_of(document), booleans_of(document))),
        document_in(as_members(integers_of(document), booleans_of(document))) == Some(
            written_form(document),
        ),
        (document.opacity matches Some(value) ==> in_opacity_range(value as int))
            ==> written_form(document) == document,
{
    member_names_differ();
    let members = as_members(integers_of(document), booleans_of(document));
    let opacity = (
        OPACITY_KEY@,
        written_form(document).opacity,
        None::<bool>,
        match written_form(document).opacity {
            Some(value) => Some(value as u64),
            None => None,
        },
    );
    let enabled = (ENABLED_KEY@, None::<i64>, document.enabled, None::<u64>);
    let launch = (LAUNCH_ON_STARTUP_KEY@, None::<i64>, document.launch_on_startup, None::<u64>);
    let expected = (if document.opacity is Some {
        seq![opacity]
    } else {
        Seq::empty()
    }) + (if document.enabled is Some {
        seq![enabled]
    } else {
        Seq::empty()
    }) + (if document.launch_on_startup is Some {
        seq![launch]
    } else {
        Seq::empty()
    });
    assert(members =~= expected);
    assert(distinct_names(members));
    first_named_is_a_member(members, OPACITY_KEY@);
    first_named_is_a_member(members, ENABLED_KEY@);
    first_named_is_a_member(members, LAUNCH_ON_STARTUP_KEY@);
    if document.opacity is Some {
        assert(members[0] == opacity);
        distinct_names_find_the_member(members, opacity);
    }
    if document.enabled is Some {
        assert(members.contains(enabled)) by {
            let at = if document.opacity is Some { 1int } else { 0int };
            assert(members[at] == enabled);
        }
        distinct_names_find_the_member(members, enabled);
    }
    if document.launch_on_startup is Some {
        assert(members.contains(launch)) by {
            let at = members.len() - 1;
            assert(members[at] == launch);
        }
        distinct_names_find_the_member(members, launch);
    }
}

} // verus!
