//! Live energy-flow schematic: node visibility, flow directions and the
//! status announcement read out to screen readers.

use vstd::prelude::*;

use crate::text::chars_equal_str;

verus! {

/// Direction of energy flow on a schematic path, relative to the house.
#[derive(Clone, Copy, PartialEq, Eq, Structural, Debug)]
pub enum FlowDirection {
    /// Energy flowing toward the house (import, production, discharge).
    ToHouse,
    /// Energy flowing away from the house (export, charging).
    FromHouse,
    /// No flow.
    Idle,
}

impl FlowDirection {
    /// Value of the `data-direction` attribute.
    pub fn as_data_attr(&self) -> (r: &'static str)
        ensures
            r@ == (match self {
                FlowDirection::ToHouse => "import"@,
                FlowDirection::FromHouse => "export"@,
                FlowDirection::Idle => "idle"@,
            }),
    {
        match self {
            FlowDirection::ToHouse => "import",
            FlowDirection::FromHouse => "export",
            FlowDirection::Idle => "idle",
        }
    }
}

/// A node is shown when data for it arrived less than 60 seconds before `now`.
pub fn node_visible(last_seen: Option<i64>, now: i64) -> (r: bool)
    ensures
        r == match last_seen {
            None => false,
            Some(ts) => now - ts < 60,
        },
{
    match last_seen {
        None => false,
        Some(ts) => (now as i128) - (ts as i128) < 60,
    }
}

/// What the accessible descriptions read of a schematic node: its id,
/// whether it is shown, its flow direction, whether it draws more than 50 W,
/// and its absolute power as display text (`"1.5 kW"`, `"800 W"`), absent
/// when there is no reading.
pub struct NodeFlowStatus {
    pub id: &'static str,
    pub visible: bool,
    pub direction: FlowDirection,
    pub drawing_power: bool,
    pub power_text: Option<String>,
}

/// The phrase a node contributes to the status announcement, if any.
pub open spec fn node_phrase(n: NodeFlowStatus) -> Option<Seq<char>> {
    if n.id@ == "grid"@ && n.visible {
        match n.direction {
            FlowDirection::ToHouse => Some("importing from grid"@),
            FlowDirection::FromHouse => Some("exporting to grid"@),
            FlowDirection::Idle => None,
        }
    } else if n.id@ == "battery"@ && n.visible {
        match n.direction {
            FlowDirection::ToHouse => Some("battery discharging"@),
            FlowDirection::FromHouse => Some("battery charging"@),
            FlowDirection::Idle => None,
        }
    } else if n.id@ == "ev"@ && n.visible {
        if n.drawing_power {
            Some("EV charging"@)
        } else {
            None
        }
    } else if n.id@ == "solar"@ && !n.visible {
        Some("solar production stopped"@)
    } else {
        None
    }
}

/// The phrases of `nodes`, in order.
pub open spec fn phrases(nodes: Seq<NodeFlowStatus>) -> Seq<Seq<char>>
    decreases nodes.len(),
{
    if nodes.len() == 0 {
        seq![]
    } else {
        let rest = phrases(nodes.drop_last());
        match node_phrase(nodes.last()) {
            Some(p) => rest.push(p),
            None => rest,
        }
    }
}

/// `parts` joined with `", "`.
pub open spec fn join_comma(parts: Seq<Seq<char>>) -> Seq<char>
    decreases parts.len(),
{
    if parts.len() == 0 {
        seq![]
    } else if parts.len() == 1 {
        parts[0]
    } else {
        join_comma(parts.drop_last()) + ", "@ + parts.last()
    }
}

/// The status text for the current state of the schematic.
pub open spec fn status_text(nodes: Seq<NodeFlowStatus>, stale: bool) -> Seq<char> {
    if stale {
        "Connection lost — showing last known values"@
    } else if phrases(nodes).len() == 0 {
        "System idle"@
    } else {
        join_comma(phrases(nodes))
    }
}

/// The announcement: the status text, unless it equals the previous one.
pub open spec fn status_announcement(
    nodes: Seq<NodeFlowStatus>,
    stale: bool,
    previous: Seq<char>,
) -> Option<Seq<char>> {
    let text = status_text(nodes, stale);
    if text == previous {
        None
    } else {
        Some(text)
    }
}

fn node_phrase_exec(n: &NodeFlowStatus) -> (r: Option<&'static str>)
    ensures
        match r {
            None => node_phrase(*n) is None,
            Some(s) => node_phrase(*n) == Some(s@),
        },
{
    if chars_equal_str(crate::text::chars_of(n.id).as_slice(), "grid") && n.visible {
        match n.direction {
            FlowDirection::ToHouse => Some("importing from grid"),
            FlowDirection::FromHouse => Some("exporting to grid"),
            FlowDirection::Idle => None,
        }
    } else if chars_equal_str(crate::text::chars_of(n.id).as_slice(), "battery") && n.visible {
        match n.direction {
            FlowDirection::ToHouse => Some("battery discharging"),
            FlowDirection::FromHouse => Some("battery charging"),
            FlowDirection::Idle => None,
        }
    } else if chars_equal_str(crate::text::chars_of(n.id).as_slice(), "ev") && n.visible {
        if n.drawing_power {
            Some("EV charging")
        } else {
            None
        }
    } else if chars_equal_str(crate::text::chars_of(n.id).as_slice(), "solar") && !n.visible {
        Some("solar production stopped")
    } else {
        None
    }
}

/// Views of a list of phrases.
pub open spec fn phrase_views(v: Seq<&'static str>) -> Seq<Seq<char>> {
    v.map_values(|s: &'static str| s@)
}

/// Status announcement for the current schematic state: the text when it
/// differs from the `previous` announcement, nothing when it is unchanged.
/// A lost connection (`stale`) takes precedence over every flow phrase.
pub fn derive_status_announcement(nodes: &[NodeFlowStatus], stale: bool, previous: &str) -> (r:
    Option<String>)
    ensures
        match r {
            None => status_announcement(nodes@, stale, previous@) is None,
            Some(t) => status_announcement(nodes@, stale, previous@) == Some(t@),
        },
{
    let text: String = if stale {
        String::from_str("Connection lost — showing last known values")
    } else {
        let mut parts: Vec<&'static str> = Vec::new();
        let mut i: usize = 0;
        while i < nodes.len()
            invariant
                i <= nodes@.len(),
                phrase_views(parts@) == phrases(nodes@.take(i as int)),
            decreases nodes@.len() - i,
        {
            let p = node_phrase_exec(&nodes[i]);
            assert(nodes@.take(i + 1).drop_last() =~= nodes@.take(i as int));
            assert(nodes@.take(i + 1).last() == nodes@[i as int]);
            match p {
                Some(s) => {
                    parts.push(s);
                },
                None => {},
            }
            assert(phrase_views(parts@) =~= phrases(nodes@.take(i + 1)));
            i = i + 1;
        }
        assert(nodes@.take(nodes@.len() as int) =~= nodes@);
        if parts.len() == 0 {
            String::from_str("System idle")
        } else {
            let mut t = String::from_str(parts[0]);
            let mut j: usize = 1;
            assert(phrase_views(parts@).take(1) =~= seq![parts@[0]@]);
            while j < parts.len()
                invariant
                    1 <= j <= parts@.len(),
                    t@ == join_comma(phrase_views(parts@).take(j as int)),
                decreases parts@.len() - j,
            {
                assert(phrase_views(parts@).take(j + 1).drop_last() =~= phrase_views(parts@).take(
                    j as int,
                ));
                t.append(", ");
                t.append(parts[j]);
                j = j + 1;
            }
            assert(phrase_views(parts@).take(parts@.len() as int) =~= phrase_views(parts@));
            t
        }
    };
    assert(text@ == status_text(nodes@, stale));
    let tc = crate::text::chars_of(text.as_str());
    if chars_equal_str(tc.as_slice(), previous) {
        None
    } else {
        Some(text)
    }
}

/// The phrase a node contributes to the schematic's `aria-label`, if any:
/// shown nodes other than the house that have a power reading.
pub open spec fn node_label_phrase(n: NodeFlowStatus) -> Option<Seq<char>> {
    if n.id@ == "house"@ || !n.visible {
        None
    } else {
        match n.power_text {
            None => None,
            Some(p) => {
                let v = p@;
                if n.id@ == "solar"@ {
                    Some("solar producing "@ + v)
                } else if n.id@ == "grid"@ {
                    match n.direction {
                        FlowDirection::ToHouse => Some("importing "@ + v + " from grid"@),
                        FlowDirection::FromHouse => Some("exporting "@ + v + " to grid"@),
                        FlowDirection::Idle => Some("grid idle"@),
                    }
                } else if n.id@ == "battery"@ {
                    match n.direction {
                        FlowDirection::ToHouse => Some("battery discharging "@ + v),
                        FlowDirection::FromHouse => Some("battery charging "@ + v),
                        FlowDirection::Idle => Some("battery idle"@),
                    }
                } else if n.id@ == "ev"@ {
                    Some("EV charging "@ + v)
                } else {
                    None
                }
            },
        }
    }
}

/// The label phrases of `nodes`, in order.
pub open spec fn label_phrases(nodes: Seq<NodeFlowStatus>) -> Seq<Seq<char>>
    decreases nodes.len(),
{
    if nodes.len() == 0 {
        seq![]
    } else {
        let rest = label_phrases(nodes.drop_last());
        match node_label_phrase(nodes.last()) {
            Some(p) => rest.push(p),
            None => rest,
        }
    }
}

/// The schematic's `aria-label`.
pub open spec fn aria_label_of(nodes: Seq<NodeFlowStatus>) -> Seq<char> {
    if label_phrases(nodes).len() == 0 {
        "Energy flow: no active sources"@
    } else {
        "Energy flow: "@ + join_comma(label_phrases(nodes))
    }
}

fn node_label_phrase_exec(n: &NodeFlowStatus) -> (r: Option<String>)
    ensures
        match r {
            None => node_label_phrase(*n) is None,
            Some(s) => node_label_phrase(*n) == Some(s@),
        },
{
    let id = crate::text::chars_of(n.id);
    if chars_equal_str(id.as_slice(), "house") || !n.visible {
        return None;
    }
    let v: &str = match &n.power_text {
        None => return None,
        Some(p) => p.as_str(),
    };
    if chars_equal_str(id.as_slice(), "solar") {
        let mut r = String::from_str("solar producing ");
        r.append(v);
        Some(r)
    } else if chars_equal_str(id.as_slice(), "grid") {
        match n.direction {
            FlowDirection::ToHouse => {
                let mut r = String::from_str("importing ");
                r.append(v);
                r.append(" from grid");
                Some(r)
            },
            FlowDirection::FromHouse => {
                let mut r = String::from_str("exporting ");
                r.append(v);
                r.append(" to grid");
                Some(r)
            },
            FlowDirection::Idle => Some(String::from_str("grid idle")),
        }
    } else if chars_equal_str(id.as_slice(), "battery") {
        match n.direction {
            FlowDirection::ToHouse => {
                let mut r = String::from_str("battery discharging ");
                r.append(v);
                Some(r)
            },
            FlowDirection::FromHouse => {
                let mut r = String::from_str("battery charging ");
                r.append(v);
                Some(r)
            },
            FlowDirection::Idle => Some(String::from_str("battery idle")),
        }
    } else if chars_equal_str(id.as_slice(), "ev") {
        let mut r = String::from_str("EV charging ");
        r.append(v);
        Some(r)
    } else {
        None
    }
}

/// Views of a list of strings.
pub open spec fn string_views(v: Seq<String>) -> Seq<Seq<char>> {
    v.map_values(|s: String| s@)
}

/// Human-readable `aria-label` summarising the current energy flow for
/// screen readers.
pub fn derive_schematic_aria_label(nodes: &[NodeFlowStatus]) -> (r: String)
    ensures
        r@ == aria_label_of(nodes@),
{
    let mut parts: Vec<String> = Vec::new();
    let mut i: usize = 0;
    while i < nodes.len()
        invariant
            i <= nodes@.len(),
            string_views(parts@) == label_phrases(nodes@.take(i as int)),
        decreases nodes@.len() - i,
    {
        let p = node_label_phrase_exec(&nodes[i]);
        assert(nodes@.take(i + 1).drop_last() =~= nodes@.take(i as int));
        assert(nodes@.take(i + 1).last() == nodes@[i as int]);
        match p {
            Some(s) => {
                parts.push(s);
            },
            None => {},
        }
        assert(string_views(parts@) =~= label_phrases(nodes@.take(i + 1)));
        i = i + 1;
    }
    assert(nodes@.take(nodes@.len() as int) =~= nodes@);
    if parts.len() == 0 {
        return String::from_str("Energy flow: no active sources");
    }
    let mut t = String::from_str(parts[0].as_str());
    let mut j: usize = 1;
    assert(string_views(parts@).take(1) =~= seq![parts@[0]@]);
    while j < parts.len()
        invariant
            1 <= j <= parts@.len(),
            t@ == join_comma(string_views(parts@).take(j as int)),
        decreases parts@.len() - j,
    {
        assert(string_views(parts@).take(j + 1).drop_last() =~= string_views(parts@).take(j as int));
        t.append(", ");
        t.append(parts[j].as_str());
        j = j + 1;
    }
    assert(string_views(parts@).take(parts@.len() as int) =~= string_views(parts@));
    let mut r = String::from_str("Energy flow: ");
    r.append(t.as_str());
    r
}

/// The announcement follows the direction of flow. A shown battery node
/// flowing toward the house (discharge) is announced as "battery
/// discharging", one flowing away from it (charging) as "battery charging",
/// an idle one not at all; a shown grid node importing (toward the house) as
/// "importing from grid" and exporting as "exporting to grid". With a power
/// reading, the accessible label of a battery node says the same phrase
/// followed by the power. Alone on the schematic of a live connection, the
/// node's phrase is the whole status text.
pub proof fn lemma_phrases_follow_flow(n: NodeFlowStatus)
    requires
        n.visible,
    ensures
        n.id@ == "battery"@ && n.direction == FlowDirection::ToHouse ==> node_phrase(n) == Some(
            "battery discharging"@,
        ),
        n.id@ == "battery"@ && n.direction == FlowDirection::FromHouse ==> node_phrase(n) == Some(
            "battery charging"@,
        ),
        n.id@ == "battery"@ && n.direction == FlowDirection::Idle ==> node_phrase(n) is None,
        n.id@ == "grid"@ && n.direction == FlowDirection::ToHouse ==> node_phrase(n) == Some(
            "importing from grid"@,
        ),
        n.id@ == "grid"@ && n.direction == FlowDirection::FromHouse ==> node_phrase(n) == Some(
            "exporting to grid"@,
        ),
        n.id@ == "battery"@ && n.direction != FlowDirection::Idle && n.power_text is Some
            ==> node_label_phrase(n) == Some(node_phrase(n)->0 + " "@ + n.power_text->0@),
        node_phrase(n) matches Some(t) ==> status_text(seq![n], false) == t,
{
    reveal_strlit("battery");
    reveal_strlit("grid");
    reveal_strlit("house");
    reveal_strlit("battery discharging ");
    reveal_strlit("battery discharging");
    reveal_strlit("battery charging ");
    reveal_strlit("battery charging");
    reveal_strlit(" ");
    reveal_strlit("ev");
    reveal_strlit("solar");
    assert("battery"@.len() != "grid"@.len());
    assert("battery"@.len() != "house"@.len());
    assert("battery"@.len() != "ev"@.len());
    assert("battery"@.len() != "solar"@.len());
    assert("grid"@.len() != "house"@.len());
    assert("grid"@.len() != "solar"@.len());
    assert("battery"@ != "grid"@);
    assert("battery"@ != "house"@);
    assert("battery"@ != "solar"@);
    assert("grid"@ != "house"@);
    assert("grid"@ != "solar"@);
    assert("battery discharging "@ =~= "battery discharging"@ + " "@);
    assert("battery charging "@ =~= "battery charging"@ + " "@);
    assert(("battery discharging"@ + " "@) + n.power_text->0@ =~= "battery discharging"@ + " "@ + n.power_text->0@);
    let s = seq![n];
    assert(s.drop_last() =~= Seq::<NodeFlowStatus>::empty());
    assert(phrases(s.drop_last()) =~= Seq::<Seq<char>>::empty());
}

/// The other phrases of the announcement: a shown EV node is announced as
/// "EV charging" exactly when it draws power; a hidden solar node as "solar
/// production stopped"; a shown solar node and the house never. A lost
/// connection is announced as such whatever the nodes, and a live schematic
/// with no phrase as "System idle".
pub proof fn lemma_other_phrases(n: NodeFlowStatus, nodes: Seq<NodeFlowStatus>)
    ensures
        n.id@ == "ev"@ && n.visible ==> node_phrase(n) == (if n.drawing_power {
            Some("EV charging"@)
        } else {
            None
        }),
        n.id@ == "solar"@ ==> node_phrase(n) == (if n.visible {
            None
        } else {
            Some("solar production stopped"@)
        }),
        n.id@ == "house"@ ==> node_phrase(n) is None,
        status_text(nodes, true) == "Connection lost — showing last known values"@,
        phrases(nodes).len() == 0 ==> status_text(nodes, false) == "System idle"@,
{
    reveal_strlit("battery");
    reveal_strlit("grid");
    reveal_strlit("house");
    reveal_strlit("ev");
    reveal_strlit("solar");
    assert("ev"@.len() != "grid"@.len());
    assert("ev"@.len() != "battery"@.len());
    assert("solar"@.len() != "grid"@.len());
    assert("solar"@.len() != "battery"@.len());
    assert("solar"@.len() != "ev"@.len());
    assert("house"@.len() != "grid"@.len());
    assert("house"@.len() != "battery"@.len());
    assert("house"@.len() != "ev"@.len());
    assert("house"@[0] != "solar"@[0]);
}

/// Announcing is idempotent: once a text has been announced, the same state
/// with that text as the previous announcement announces nothing.
pub proof fn lemma_announcement_settles(nodes: Seq<NodeFlowStatus>, stale: bool, previous: Seq<char>)
    ensures
        match status_announcement(nodes, stale, previous) {
            Some(t) => status_announcement(nodes, stale, t) is None,
            None => true,
        },
        status_announcement(nodes, stale, previous) is None <==> previous == status_text(nodes, stale),
{
}

} // verus!
