use vstd::prelude::*;

use crate::json::{
    field, items_of, lemma_array_view, opt_strings_view, opt_view,
    optional_entry, optional_string, optional_strings, required_string, required_strings,
    strings_json, strings_of, lemma_field_concat, lemma_field_optional,
    lemma_string_list_round_trip, Json, JsonV, get_field, object, push_entry,
    read_optional_string, read_optional_strings, read_required_string, read_required_strings,
    optional_string_json, optional_strings_json, string, strings,
};

verus! {

/// Whether a permission grants (positive) or denies (negative) when its policies match.
#[derive(Debug, Clone, Copy, PartialEq, Eq, Structural)]
pub enum Uma2PermissionLogic {
    Positive,
    Negative,
}

/// How the decisions of several policies are combined.
#[derive(Debug, Clone, Copy, PartialEq, Eq, Structural)]
pub enum Uma2PermissionDecisionStrategy {
    Unanimous,
    Affirmative,
    Consensus,
}

/// A permission associated with a resource, as created, updated and listed on the policy endpoint.
#[derive(Debug, Clone)]
pub struct Uma2PermissionAssociation {
    pub id: Option<String>,
    pub name: String,
    pub description: String,
    pub scopes: Vec<String>,
    pub roles: Option<Vec<String>>,
    pub groups: Option<Vec<String>>,
    pub clients: Option<Vec<String>>,
    pub owner: Option<String>,
    pub permission_type: Option<String>,
    pub logic: Option<Uma2PermissionLogic>,
    pub decision_strategy: Option<Uma2PermissionDecisionStrategy>,
}

/// Model of a permission association.
pub ghost struct AssociationV {
    pub id: Option<Seq<char>>,
    pub name: Seq<char>,
    pub description: Seq<char>,
    pub scopes: Seq<Seq<char>>,
    pub roles: Option<Seq<Seq<char>>>,
    pub groups: Option<Seq<Seq<char>>>,
    pub clients: Option<Seq<Seq<char>>>,
    pub owner: Option<Seq<char>>,
    pub permission_type: Option<Seq<char>>,
    pub logic: Option<Uma2PermissionLogic>,
    pub decision_strategy: Option<Uma2PermissionDecisionStrategy>,
}

impl View for Uma2PermissionAssociation {
    type V = AssociationV;

    open spec fn view(&self) -> AssociationV {
        AssociationV {
            id: opt_view(self.id),
            name: self.name@,
            description: self.description@,
            scopes: strings_of(self.scopes@),
            roles: opt_strings_view(self.roles),
            groups: opt_strings_view(self.groups),
            clients: opt_strings_view(self.clients),
            owner: opt_view(self.owner),
            permission_type: opt_view(self.permission_type),
            logic: self.logic,
            decision_strategy: self.decision_strategy,
        }
    }
}

/// Wire name of a permission logic.
pub open spec fn logic_name(l: Uma2PermissionLogic) -> Seq<char> {
    match l {
        Uma2PermissionLogic::Positive => "POSITIVE"@,
        Uma2PermissionLogic::Negative => "NEGATIVE"@,
    }
}

/// Wire name of a decision strategy.
pub open spec fn strategy_name(d: Uma2PermissionDecisionStrategy) -> Seq<char> {
    match d {
        Uma2PermissionDecisionStrategy::Unanimous => "UNANIMOUS"@,
        Uma2PermissionDecisionStrategy::Affirmative => "AFFIRMATIVE"@,
        Uma2PermissionDecisionStrategy::Consensus => "CONSENSUS"@,
    }
}

pub open spec fn opt_str_json(o: Option<Seq<char>>) -> Option<JsonV> {
    match o {
        Some(s) => Some(JsonV::Str(s)),
        None => None,
    }
}

pub open spec fn opt_strings_json(o: Option<Seq<Seq<char>>>) -> Option<JsonV> {
    match o {
        Some(s) => Some(strings_json(s)),
        None => None,
    }
}

pub open spec fn opt_logic_json(o: Option<Uma2PermissionLogic>) -> Option<JsonV> {
    match o {
        Some(l) => Some(JsonV::Str(logic_name(l))),
        None => None,
    }
}

pub open spec fn opt_strategy_json(o: Option<Uma2PermissionDecisionStrategy>) -> Option<JsonV> {
    match o {
        Some(d) => Some(JsonV::Str(strategy_name(d))),
        None => None,
    }
}

/// The JSON object for a permission association: absent optional fields are left out.
pub open spec fn association_json(a: AssociationV) -> JsonV {
    JsonV::Object(
        optional_entry("id"@, opt_str_json(a.id))
            + optional_entry("name"@, Some(JsonV::Str(a.name)))
            + optional_entry("description"@, Some(JsonV::Str(a.description)))
            + optional_entry("scopes"@, Some(strings_json(a.scopes)))
            + optional_entry("roles"@, opt_strings_json(a.roles))
            + optional_entry("groups"@, opt_strings_json(a.groups))
            + optional_entry("clients"@, opt_strings_json(a.clients))
            + optional_entry("owner"@, opt_str_json(a.owner))
            + optional_entry("type"@, opt_str_json(a.permission_type))
            + optional_entry("logic"@, opt_logic_json(a.logic))
            + optional_entry("decisionStrategy"@, opt_strategy_json(a.decision_strategy)),
    )
}

/// Reading a field typed as an optional permission logic.
pub open spec fn optional_logic(es: Seq<(Seq<char>, JsonV)>) -> Option<Option<Uma2PermissionLogic>> {
    match field(es, "logic"@) {
        None => Some(None),
        Some(JsonV::Null) => Some(None),
        Some(JsonV::Str(s)) => if s == "POSITIVE"@ {
            Some(Some(Uma2PermissionLogic::Positive))
        } else if s == "NEGATIVE"@ {
            Some(Some(Uma2PermissionLogic::Negative))
        } else {
            None
        },
        Some(_) => None,
    }
}

/// Reading a field typed as an optional decision strategy.
pub open spec fn optional_strategy(es: Seq<(Seq<char>, JsonV)>) -> Option<Option<Uma2PermissionDecisionStrategy>> {
    match field(es, "decisionStrategy"@) {
        None => Some(None),
        Some(JsonV::Null) => Some(None),
        Some(JsonV::Str(s)) => if s == "UNANIMOUS"@ {
            Some(Some(Uma2PermissionDecisionStrategy::Unanimous))
        } else if s == "AFFIRMATIVE"@ {
            Some(Some(Uma2PermissionDecisionStrategy::Affirmative))
        } else if s == "CONSENSUS"@ {
            Some(Some(Uma2PermissionDecisionStrategy::Consensus))
        } else {
            None
        },
        Some(_) => None,
    }
}

/// The permission association that a JSON document decodes to, if it has that shape.
pub open spec fn association_of(j: JsonV) -> Option<AssociationV> {
    match j {
        JsonV::Object(es) => {
            let id = optional_string(es, "id"@);
            let name = required_string(es, "name"@);
            let description = required_string(es, "description"@);
            let scopes = required_strings(es, "scopes"@);
            let roles = optional_strings(es, "roles"@);
            let groups = optional_strings(es, "groups"@);
            let clients = optional_strings(es, "clients"@);
            let owner = optional_string(es, "owner"@);
            let ptype = optional_string(es, "type"@);
            let logic = optional_logic(es);
            let strategy = optional_strategy(es);
            if id is Some && name is Some && description is Some && scopes is Some && roles is Some
                && groups is Some && clients is Some && owner is Some && ptype is Some
                && logic is Some && strategy is Some {
                Some(AssociationV {
                    id: id->Some_0,
                    name: name->Some_0,
                    description: description->Some_0,
                    scopes: scopes->Some_0,
                    roles: roles->Some_0,
                    groups: groups->Some_0,
                    clients: clients->Some_0,
                    owner: owner->Some_0,
                    permission_type: ptype->Some_0,
                    logic: logic->Some_0,
                    decision_strategy: strategy->Some_0,
                })
            } else {
                None
            }
        },
        _ => None,
    }
}


/// Encoding a permission association and decoding the JSON back gives the same association.
pub proof fn lemma_association_round_trip(a: AssociationV)
    ensures
        association_of(association_json(a)) == Some(a),
{
    broadcast use lemma_field_concat, lemma_field_optional, lemma_string_list_round_trip;

    reveal_strlit("id");
    reveal_strlit("name");
    reveal_strlit("description");
    reveal_strlit("scopes");
    reveal_strlit("roles");
    reveal_strlit("groups");
    reveal_strlit("clients");
    reveal_strlit("owner");
    reveal_strlit("type");
    reveal_strlit("logic");
    reveal_strlit("decisionStrategy");
    reveal_strlit("POSITIVE");
    reveal_strlit("NEGATIVE");
    reveal_strlit("UNANIMOUS");
    reveal_strlit("AFFIRMATIVE");
    reveal_strlit("CONSENSUS");
    let es = association_json(a)->Object_0;
    assert("POSITIVE"@[0] != "NEGATIVE"@[0] && "UNANIMOUS"@[0] != "CONSENSUS"@[0]);
    assert("UNANIMOUS"@.len() == 9 && "AFFIRMATIVE"@.len() == 11 && "CONSENSUS"@.len() == 9);
    assert("id"@.len() == 2 && "name"@.len() == 4 && "type"@.len() == 4);
    assert("roles"@.len() == 5 && "owner"@.len() == 5 && "logic"@.len() == 5);
    assert("groups"@.len() == 6 && "scopes"@.len() == 6 && "clients"@.len() == 7);
    assert("description"@.len() == 11 && "decisionStrategy"@.len() == 16);
    assert("name"@[0] != "type"@[0] && "groups"@[0] != "scopes"@[0]);
    assert("roles"@[0] != "owner"@[0] && "roles"@[0] != "logic"@[0] && "owner"@[0] != "logic"@[0]);
    assert(field(es, "id"@) == opt_str_json(a.id));
    assert(field(es, "name"@) == Some(JsonV::Str(a.name)));
    assert(field(es, "description"@) == Some(JsonV::Str(a.description)));
    assert(field(es, "scopes"@) == Some(strings_json(a.scopes)));
    assert(field(es, "roles"@) == opt_strings_json(a.roles));
    assert(field(es, "groups"@) == opt_strings_json(a.groups));
    assert(field(es, "clients"@) == opt_strings_json(a.clients));
    assert(field(es, "owner"@) == opt_str_json(a.owner));
    assert(field(es, "type"@) == opt_str_json(a.permission_type));
    assert(field(es, "logic"@) == opt_logic_json(a.logic));
    assert(field(es, "decisionStrategy"@) == opt_strategy_json(a.decision_strategy));
}


impl Uma2PermissionLogic {
    /// The name of the logic on the wire.
    pub fn to_json(&self) -> (r: Json)
        ensures
            r@ == JsonV::Str(logic_name(*self)),
    {
        match self {
            Uma2PermissionLogic::Positive => Json::Str(String::from_str("POSITIVE")),
            Uma2PermissionLogic::Negative => Json::Str(String::from_str("NEGATIVE")),
        }
    }
}

impl Uma2PermissionDecisionStrategy {
    /// The name of the strategy on the wire.
    pub fn to_json(&self) -> (r: Json)
        ensures
            r@ == JsonV::Str(strategy_name(*self)),
    {
        match self {
            Uma2PermissionDecisionStrategy::Unanimous => Json::Str(String::from_str("UNANIMOUS")),
            Uma2PermissionDecisionStrategy::Affirmative => Json::Str(String::from_str("AFFIRMATIVE")),
            Uma2PermissionDecisionStrategy::Consensus => Json::Str(String::from_str("CONSENSUS")),
        }
    }
}

fn read_logic(j: &Json) -> (r: Option<Option<Uma2PermissionLogic>>)
    requires
        j@ is Object,
    ensures
        r == optional_logic(j@->Object_0),
{
    let positive = String::from_str("POSITIVE");
    let negative = String::from_str("NEGATIVE");
    match get_field(j, &String::from_str("logic")) {
        None => Some(None),
        Some(Json::Null) => Some(None),
        Some(Json::Str(s)) => if *s == positive {
            Some(Some(Uma2PermissionLogic::Positive))
        } else if *s == negative {
            Some(Some(Uma2PermissionLogic::Negative))
        } else {
            None
        },
        Some(_) => None,
    }
}

fn read_strategy(j: &Json) -> (r: Option<Option<Uma2PermissionDecisionStrategy>>)
    requires
        j@ is Object,
    ensures
        r == optional_strategy(j@->Object_0),
{
    let unanimous = String::from_str("UNANIMOUS");
    let affirmative = String::from_str("AFFIRMATIVE");
    let consensus = String::from_str("CONSENSUS");
    match get_field(j, &String::from_str("decisionStrategy")) {
        None => Some(None),
        Some(Json::Null) => Some(None),
        Some(Json::Str(s)) => if *s == unanimous {
            Some(Some(Uma2PermissionDecisionStrategy::Unanimous))
        } else if *s == affirmative {
            Some(Some(Uma2PermissionDecisionStrategy::Affirmative))
        } else if *s == consensus {
            Some(Some(Uma2PermissionDecisionStrategy::Consensus))
        } else {
            None
        },
        Some(_) => None,
    }
}

impl Uma2PermissionAssociation {
    /// The JSON body for this association; absent optional fields are left out.
    pub fn to_json(&self) -> (r: Json)
        ensures
            r@ == association_json(self@),
    {
        let mut es: Vec<(String, Json)> = Vec::new();
        push_entry(&mut es, "id", optional_string_json(&self.id));
        push_entry(&mut es, "name", Some(string(&self.name)));
        push_entry(&mut es, "description", Some(string(&self.description)));
        push_entry(&mut es, "scopes", Some(strings(&self.scopes)));
        push_entry(&mut es, "roles", optional_strings_json(&self.roles));
        push_entry(&mut es, "groups", optional_strings_json(&self.groups));
        push_entry(&mut es, "clients", optional_strings_json(&self.clients));
        push_entry(&mut es, "owner", optional_string_json(&self.owner));
        push_entry(&mut es, "type", optional_string_json(&self.permission_type));
        let logic = match &self.logic {
            Some(l) => Some(l.to_json()),
            None => None,
        };
        push_entry(&mut es, "logic", logic);
        let strategy = match &self.decision_strategy {
            Some(d) => Some(d.to_json()),
            None => None,
        };
        push_entry(&mut es, "decisionStrategy", strategy);
        let r = object(es);
        assert(r@->Object_0 =~= association_json(self@)->Object_0);
        r
    }

    /// Decodes an association from a JSON object; `None` when the document does not have that shape.
    pub fn from_json(j: &Json) -> (r: Option<Uma2PermissionAssociation>)
        ensures
            match r {
                Some(a) => association_of(j@) == Some(a@),
                None => association_of(j@) is None,
            },
    {
        match j {
            Json::Object(_) => {},
            _ => {
                return None;
            },
        }
        let id = read_optional_string(j, &String::from_str("id"));
        let name = read_required_string(j, &String::from_str("name"));
        let description = read_required_string(j, &String::from_str("description"));
        let scopes = read_required_strings(j, &String::from_str("scopes"));
        let roles = read_optional_strings(j, &String::from_str("roles"));
        let groups = read_optional_strings(j, &String::from_str("groups"));
        let clients = read_optional_strings(j, &String::from_str("clients"));
        let owner = read_optional_string(j, &String::from_str("owner"));
        let ptype = read_optional_string(j, &String::from_str("type"));
        let logic = read_logic(j);
        let strategy = read_strategy(j);
        match (id, name, description, scopes, roles, groups, clients, owner, ptype, logic, strategy) {
            (
                Some(id),
                Some(name),
                Some(description),
                Some(scopes),
                Some(roles),
                Some(groups),
                Some(clients),
                Some(owner),
                Some(permission_type),
                Some(logic),
                Some(decision_strategy),
            ) => Some(Uma2PermissionAssociation {
                id,
                name,
                description,
                scopes,
                roles,
                groups,
                clients,
                owner,
                permission_type,
                logic,
                decision_strategy,
            }),
            _ => None,
        }
    }
}

/// The list of associations that a JSON array decodes to, if every item has that shape.
pub open spec fn associations_of(j: JsonV) -> Option<Seq<AssociationV>> {
    match j {
        JsonV::Array(items) => if forall|i: int| 0 <= i < items.len() ==> (#[trigger] association_of(items[i])) is Some {
            Some(items.map_values(|x: JsonV| association_of(x)->Some_0))
        } else {
            None
        },
        _ => None,
    }
}

pub open spec fn associations_view(s: Seq<Uma2PermissionAssociation>) -> Seq<AssociationV> {
    s.map_values(|a: Uma2PermissionAssociation| a@)
}

/// Decodes a JSON array of associations; `None` when the document does not have that shape.
pub fn decode_associations(j: &Json) -> (r: Option<Vec<Uma2PermissionAssociation>>)
    ensures
        match r {
            Some(v) => associations_of(j@) == Some(associations_view(v@)),
            None => associations_of(j@) is None,
        },
{
    match j {
        Json::Array(v) => {
            proof {
                lemma_array_view(*v);
            }
            let ghost items = items_of(v@);
            let mut out: Vec<Uma2PermissionAssociation> = Vec::new();
            let mut i: usize = 0;
            while i < v.len()
                invariant
                    i <= v.len(),
                    items == items_of(v@),
                    j@ == JsonV::Array(items),
                    items.len() == v.len(),
                    out.len() == i,
                    forall|m: int| 0 <= m < i ==> association_of(#[trigger] items[m]) == Some(out@[m]@),
                decreases v.len() - i,
            {
                match Uma2PermissionAssociation::from_json(&v[i]) {
                    Some(a) => {
                        out.push(a);
                    },
                    None => {
                        assert(association_of(items[i as int]) is None);
                        return None;
                    },
                }
                i = i + 1;
            }
            assert(associations_view(out@) =~= items.map_values(|x: JsonV| association_of(x)->Some_0));
            Some(out)
        },
        _ => None,
    }
}

} // verus!
