//! Settings, and the backends by name.
use crate::backends::{by_name, listed, names_differ, with_entry, without_entry, Listing};
use crate::config::{default_backends, BackendServerView, ConfigError, ProxyConfig};
use crate::proxy::registry::RegistryView;
use vstd::prelude::*;

verus! {

/// A backend is there by name exactly where it is listed, and it is the one that is listed.
pub proof fn names_lead_to_what_is_listed(row: Listing, i: int, name: Seq<char>)
    requires
        names_differ(row),
    ensures
        by_name(row).contains_key(name) <==> exists|k: int|
            0 <= k < row.len() && (#[trigger] row[k]).0 == name,
        0 <= i < row.len() ==> by_name(row).contains_key(row[i].0) && by_name(row)[row[i].0]
            == row[i].1,
        forall|k: int, l: int|
            0 <= k < row.len() && 0 <= l < row.len() && (#[trigger] row[k]).0 == (
            #[trigger] row[l]).0 ==> k == l,
{
    if 0 <= i < row.len() {
        assert(listed(row, row[i].0));
    }
}

/// A name that is given to a backend stands for it; one that was listed keeps its place, a new one
/// comes last, and every other entry stays where it was.
pub proof fn given_names_keep_the_order(
    row: Listing,
    name: Seq<char>,
    b: BackendServerView,
    i: int,
)
    requires
        names_differ(row),
    ensures
        ({
            let new = with_entry(row, name, b);
            &&& listed(row, name) ==> new.len() == row.len()
            &&& !listed(row, name) ==> new.len() == row.len() + 1 && new.last() == (name, b)
            &&& 0 <= i < row.len() && row[i].0 != name ==> new[i] == row[i]
            &&& 0 <= i < row.len() && row[i].0 == name ==> new[i] == (name, b)
        }),
{
    if 0 <= i < row.len() && row[i].0 == name {
        assert(listed(row, name));
    }
}

/// A name that is taken away is listed no more, and every other entry stays, in the same order.
pub proof fn taken_names_keep_the_order(row: Listing, name: Seq<char>, i: int)
    requires
        names_differ(row),
    ensures
        ({
            let new = without_entry(row, name);
            &&& !listed(new, name)
            &&& listed(row, name) ==> new.len() == row.len() - 1
            &&& !listed(row, name) ==> new == row
            &&& 0 <= i < row.len() && row[i].0 != name ==> (i < new.len() && new[i] == row[i]) || (i
                > 0 && new[i - 1] == row[i])
        }),
{
    let new = without_entry(row, name);
    if listed(row, name) {
        let at = crate::backends::place_of(row, name);
        assert(row[at].0 == name);
        if listed(new, name) {
            let k = choose|k: int| 0 <= k < new.len() && (#[trigger] new[k]).0 == name;
            if k < at {
                assert(new[k] == row[k]);
            } else {
                assert(new[k] == row[k + 1]);
            }
        }
    }
}

/// A backend that is found under a name is one that has it: a dynamic one where there is one, else
/// the static one.
pub proof fn found_backends_have_the_name(r: RegistryView, name: Seq<char>)
    ensures
        r.find(name) matches Some(b) ==> (r.dynamic.contains_key(name) && r.dynamic[name] == b) || (
        !r.dynamic.contains_key(name) && r.fixed.contains_key(name) && r.fixed[name] == b),
        r.find(name) is None ==> !r.dynamic.contains_key(name) && !r.fixed.contains_key(name),
        r.has(name) <==> r.dynamic.contains_key(name) || r.fixed.contains_key(name),
{
}

/// A dynamic backend that is added or removed changes no static one, and no other dynamic one.
pub proof fn dynamic_backends_come_and_go(
    r: RegistryView,
    name: Seq<char>,
    b: BackendServerView,
    other: Seq<char>,
)
    ensures
        r.with_dynamic(name, b).fixed == r.fixed,
        r.without_dynamic(name).fixed == r.fixed,
        r.with_dynamic(name, b).dynamic.contains_key(name),
        r.with_dynamic(name, b).dynamic[name] == b,
        !r.without_dynamic(name).dynamic.contains_key(name),
        other != name ==> r.with_dynamic(name, b).dynamic.contains_key(other)
            == r.dynamic.contains_key(other),
        other != name ==> r.without_dynamic(name).dynamic.contains_key(other)
            == r.dynamic.contains_key(other),
        other != name && r.dynamic.contains_key(other) ==> r.with_dynamic(name, b).dynamic[other]
            == r.dynamic[other] && r.without_dynamic(name).dynamic[other] == r.dynamic[other],
{
}

/// Settings are good exactly where the default server is one of the backends; what else they hold
/// does not matter.
pub proof fn default_server_must_be_there(config: ProxyConfig)
    ensures
        config.is_usable() <==> exists|k: int|
            0 <= k < config.backends.listing().len() && (#[trigger] config.backends.listing()[k]).0
                == config.default_server@,
{
}

/// Settings that are refused for their default server are told its name.
pub proof fn refusal_tells_the_default_server(name: String)
    ensures
        (ConfigError::DefaultMissing { name }).text() == "Default server '"@ + name@
            + "' not found in backends"@,
        (ConfigError::NoBackends).text() == "No backend servers configured"@,
{
}

/// New settings offer two backends on the own machine, each described and each by another name and
/// at another port, and a player who does not choose finds the first of them.
pub proof fn new_settings_offer_two_backends()
    ensures
        ({
            let row = default_backends();
            &&& row.len() == 2
            &&& names_differ(row)
            &&& forall|i: int|
                0 <= i < row.len() ==> (#[trigger] row[i]).1.address == "127.0.0.1"@
                    && row[i].1.port == 25566 + i
            &&& row[0].0 == "lobby"@
            &&& row[0].1.description == Some("Lobby server"@)
            &&& row[1].0 == "survival"@
            &&& row[1].1.description == Some("Survival server"@)
            &&& by_name(row).contains_key("lobby"@)
            &&& by_name(row)["lobby"@] == row[0].1
        }),
{
    reveal_strlit("lobby");
    reveal_strlit("survival");
    let row = default_backends();
    assert("lobby"@.len() != "survival"@.len());
    assert(names_differ(row));
    names_lead_to_what_is_listed(row, 0, "lobby"@);
}

} // verus!
