//! Reading stored tool definitions out of their JSON rows: the execution kind
//! becomes a closed variant, the parameter map a list of name/variable pairs.
use vstd::prelude::*;
use crate::json::{Json, JVal, jval, jval_seq, spec_obj_get, obj_get, as_str};
use crate::entities::{Tool, ExecutionType};
use crate::text::str_eq;
use crate::builders::ToolModel;

verus! {

/// The model of a stored tool definition.
pub struct ToolDefModel {
    pub name: Seq<char>,
    pub title: Option<Seq<char>>,
    pub description: Seq<char>,
    pub input_schema: JVal,
    pub execution_type: Option<ExecutionType>,
    pub sql_template: Option<Seq<char>>,
    pub parameter_map: Seq<(Seq<char>, Seq<char>)>,
    pub project_id: Option<Seq<char>>,
    pub active: bool,
}

impl Tool {
    pub open spec fn model(&self) -> ToolDefModel {
        ToolDefModel {
            name: self.name@,
            title: match self.title {
                Some(t) => Some(t@),
                None => None,
            },
            description: self.description@,
            input_schema: jval(self.input_schema),
            execution_type: self.execution_type,
            sql_template: match self.sql_template {
                Some(t) => Some(t@),
                None => None,
            },
            parameter_map: crate::binding::spec_param_rows(self.parameter_map@),
            project_id: match self.project_id {
                Some(t) => Some(t@),
                None => None,
            },
            active: self.active,
        }
    }
}

/// The listing part of a definition.
pub open spec fn spec_listing(t: ToolDefModel) -> ToolModel {
    ToolModel { name: t.name, description: t.description, input_schema: t.input_schema }
}

/// The closed variant a stored execution-kind text maps to; anything
/// unrecognized maps to the kind that is treated as "tool not found".
pub open spec fn spec_exec_type_of(s: Seq<char>) -> ExecutionType {
    if s == "static"@ {
        ExecutionType::Static
    } else if s == "dynamic_sql"@ {
        ExecutionType::DynamicSql
    } else if s == "raw_sql"@ {
        ExecutionType::RawSql
    } else {
        ExecutionType::Unknown
    }
}

pub fn exec_type_of(s: &str) -> (r: ExecutionType)
    ensures
        r == spec_exec_type_of(s@),
{
    if str_eq(s, "static") {
        ExecutionType::Static
    } else if str_eq(s, "dynamic_sql") {
        ExecutionType::DynamicSql
    } else if str_eq(s, "raw_sql") {
        ExecutionType::RawSql
    } else {
        ExecutionType::Unknown
    }
}

/// The name/variable pairs of a parameter-map object: string-valued members
/// in order; everything else contributes nothing.
pub open spec fn spec_param_entries(fields: Seq<(Seq<char>, JVal)>) -> Seq<(Seq<char>, Seq<char>)>
    decreases fields.len(),
{
    if fields.len() == 0 {
        Seq::empty()
    } else {
        (match fields[0].1 {
            JVal::Str(s) => seq![(fields[0].0, s)],
            _ => Seq::empty(),
        }) + spec_param_entries(fields.skip(1))
    }
}

/// The parameter map a stored value yields: its string-valued members where
/// it is an object, nothing otherwise.
pub open spec fn spec_param_map_of(v: Option<JVal>) -> Seq<(Seq<char>, Seq<char>)> {
    match v {
        Some(JVal::Obj(fields)) => spec_param_entries(fields),
        _ => Seq::empty(),
    }
}

/// A member read as these rows require it: `Ok(None)` for absent or null,
/// `Ok(Some(s))` for a string, and `Err(())` for anything else.
pub open spec fn spec_opt_str_member(v: JVal, key: Seq<char>) -> Result<Option<Seq<char>>, ()> {
    match spec_obj_get(v, key) {
        None => Ok(None),
        Some(JVal::Null) => Ok(None),
        Some(JVal::Str(s)) => Ok(Some(s)),
        Some(_) => Err(()),
    }
}

fn opt_str_member(v: &Json, key: &str) -> (r: Result<Option<String>, ()>)
    ensures
        match r {
            Ok(Some(s)) => spec_opt_str_member(jval(*v), key@) == Ok::<_, ()>(Some(s@)),
            Ok(None) => spec_opt_str_member(jval(*v), key@) == Ok::<Option<Seq<char>>, ()>(None),
            Err(_) => spec_opt_str_member(jval(*v), key@) is Err,
        },
{
    match obj_get(v, key) {
        None => Ok(None),
        Some(x) => match x {
            Json::Null => Ok(None),
            Json::Str(s) => Ok(Some(s.clone())),
            _ => Err(()),
        },
    }
}

/// The definition a row decodes to: `name` and `description` must be strings
/// and `input_schema` present; the optional text fields must be strings or
/// null where present; an absent or non-boolean `active` counts as inactive.
pub open spec fn spec_tool_of(v: JVal) -> Option<ToolDefModel> {
    match spec_obj_get(v, "name"@) {
        Some(JVal::Str(name)) => match spec_obj_get(v, "description"@) {
            Some(JVal::Str(description)) => match spec_obj_get(v, "input_schema"@) {
                Some(schema) => {
                    let title = spec_opt_str_member(v, "title"@);
                    let et = spec_opt_str_member(v, "execution_type"@);
                    let tmpl = spec_opt_str_member(v, "sql_template"@);
                    if title is Err || et is Err || tmpl is Err {
                        None
                    } else {
                        Some(
                            ToolDefModel {
                                name,
                                title: title->Ok_0,
                                description,
                                input_schema: schema,
                                execution_type: match et->Ok_0 {
                                    Some(s) => Some(spec_exec_type_of(s)),
                                    None => None,
                                },
                                sql_template: tmpl->Ok_0,
                                parameter_map: spec_param_map_of(
                                    spec_obj_get(v, "parameter_map"@),
                                ),
                                project_id: match spec_obj_get(v, "project_id"@) {
                                    Some(JVal::Str(s)) => Some(s),
                                    _ => None,
                                },
                                active: match spec_obj_get(v, "active"@) {
                                    Some(JVal::Bool(b)) => b,
                                    _ => false,
                                },
                            },
                        )
                    }
                },
                None => None,
            },
            _ => None,
        },
        _ => None,
    }
}

/// Decodes one stored row into a tool definition, exactly as `spec_tool_of`
/// states.
pub fn tool_of_json(v: &Json) -> (r: Option<Tool>)
    ensures
        match r {
            Some(t) => spec_tool_of(jval(*v)) == Some(t.model()),
            None => spec_tool_of(jval(*v)) is None,
        },
{
    let name = match obj_get(v, "name") {
        Some(x) => match as_str(x) {
            Some(s) => s.clone(),
            None => {
                return None;
            },
        },
        None => {
            return None;
        },
    };
    let description = match obj_get(v, "description") {
        Some(x) => match as_str(x) {
            Some(s) => s.clone(),
            None => {
                return None;
            },
        },
        None => {
            return None;
        },
    };
    let input_schema = match obj_get(v, "input_schema") {
        Some(x) => x.duplicate(),
        None => {
            return None;
        },
    };
    let title = match opt_str_member(v, "title") {
        Ok(t) => t,
        Err(_) => {
            return None;
        },
    };
    let execution_type = match opt_str_member(v, "execution_type") {
        Ok(Some(s)) => Some(exec_type_of(s.as_str())),
        Ok(None) => None,
        Err(_) => {
            return None;
        },
    };
    let sql_template = match opt_str_member(v, "sql_template") {
        Ok(t) => t,
        Err(_) => {
            return None;
        },
    };
    let parameter_map = param_map_of(v);
    let project_id = match obj_get(v, "project_id") {
        Some(x) => match as_str(x) {
            Some(s) => Some(s.clone()),
            None => None,
        },
        None => None,
    };
    let active = match obj_get(v, "active") {
        Some(x) => match x {
            Json::Bool(b) => *b,
            _ => false,
        },
        None => false,
    };
    Some(
        Tool {
            name,
            title,
            description,
            input_schema,
            execution_type,
            sql_template,
            parameter_map,
            project_id,
            active,
        },
    )
}

/// Reads the parameter map of a row, exactly as `spec_param_map_of` states.
fn param_map_of(v: &Json) -> (r: Vec<(String, String)>)
    ensures
        crate::binding::spec_param_rows(r@) == spec_param_map_of(
            spec_obj_get(jval(*v), "parameter_map"@),
        ),
{
    let mut out: Vec<(String, String)> = Vec::new();
    match obj_get(v, "parameter_map") {
        Some(pm) => match pm {
            Json::Obj(fields) => {
                let mut i: usize = 0;
                proof {
                    assert(crate::json::jval_fields(fields@).skip(0) =~= crate::json::jval_fields(
                        fields@,
                    ));
                    assert(crate::binding::spec_param_rows(out@) =~= Seq::<
                        (Seq<char>, Seq<char>),
                    >::empty());
                    assert(crate::binding::spec_param_rows(out@) + spec_param_entries(
                        crate::json::jval_fields(fields@),
                    ) =~= spec_param_entries(crate::json::jval_fields(fields@)));
                }
                while i < fields.len()
                    invariant
                        0 <= i <= fields@.len(),
                        jval(*pm) == JVal::Obj(crate::json::jval_fields(fields@)),
                        spec_obj_get(jval(*v), "parameter_map"@) == Some(jval(*pm)),
                        pm == &Json::Obj(*fields),
                        crate::binding::spec_param_rows(out@) + spec_param_entries(
                            crate::json::jval_fields(fields@).skip(i as int),
                        ) =~= spec_param_entries(crate::json::jval_fields(fields@)),
                    decreases fields@.len() - i,
                {
                    let ghost rows = crate::json::jval_fields(fields@);
                    proof {
                        assert(rows.skip(i as int)[0] == rows[i as int]);
                        assert(rows.skip(i as int).skip(1) =~= rows.skip(i as int + 1));
                    }
                    match &fields[i].1 {
                        Json::Str(s) => {
                            let ghost before = out@;
                            out.push((fields[i].0.clone(), s.clone()));
                            proof {
                                assert(crate::binding::spec_param_rows(out@) =~= crate::binding::spec_param_rows(
                                    before,
                                ) + seq![(rows[i as int].0, rows[i as int].1->Str_0)]);
                            }
                        },
                        _ => {},
                    }
                    i += 1;
                }
                proof {
                    assert(crate::json::jval_fields(fields@).skip(i as int).len() == 0);
                    assert(spec_param_entries(
                        crate::json::jval_fields(fields@).skip(i as int),
                    ) =~= Seq::<(Seq<char>, Seq<char>)>::empty());
                    assert(crate::binding::spec_param_rows(out@) =~= crate::binding::spec_param_rows(
                        out@,
                    ) + Seq::<(Seq<char>, Seq<char>)>::empty());
                }
                out
            },
            _ => {
                proof {
                    assert(crate::binding::spec_param_rows(out@) =~= Seq::<
                        (Seq<char>, Seq<char>),
                    >::empty());
                }
                out
            },
        },
        None => {
            proof {
                assert(crate::binding::spec_param_rows(out@) =~= Seq::<
                    (Seq<char>, Seq<char>),
                >::empty());
            }
            out
        },
    }
}

/// What a batch of rows decodes to: every definition where every row decodes,
/// and nothing where any row is malformed.
pub open spec fn spec_tools_of_rows(rows: Seq<JVal>) -> Seq<ToolDefModel> {
    if forall|i: int| 0 <= i < rows.len() ==> spec_tool_of(#[trigger] rows[i]) is Some {
        rows.map_values(|r: JVal| spec_tool_of(r)->Some_0)
    } else {
        Seq::empty()
    }
}

/// Decodes a batch of rows, exactly as `spec_tools_of_rows` states.
pub fn tools_of_rows(rows: &Vec<Json>) -> (r: Vec<Tool>)
    ensures
        r@.map_values(|t: Tool| t.model()) == spec_tools_of_rows(jval_seq(rows@)),
{
    let ghost models = jval_seq(rows@);
    let mut out: Vec<Tool> = Vec::new();
    let mut i: usize = 0;
    while i < rows.len()
        invariant
            0 <= i <= rows@.len(),
            models == jval_seq(rows@),
            models.len() == rows@.len(),
            out@.len() == i,
            forall|j: int|
                0 <= j < i ==> spec_tool_of(models[j]) == Some((#[trigger] out@[j]).model()),
        decreases rows@.len() - i,
    {
        match tool_of_json(&rows[i]) {
            Some(t) => {
                out.push(t);
            },
            None => {
                let empty: Vec<Tool> = Vec::new();
                proof {
                    assert(spec_tool_of(models[i as int]) is None);
                    assert(empty@.map_values(|t: Tool| t.model()) =~= Seq::<ToolDefModel>::empty());
                    assert(spec_tools_of_rows(models) =~= Seq::<ToolDefModel>::empty());
                }
                return empty;
            },
        }
        i += 1;
    }
    proof {
        assert forall|j: int| 0 <= j < models.len() implies spec_tool_of(
            #[trigger] models[j],
        ) is Some by {
            assert(spec_tool_of(models[j]) == Some(out@[j].model()));
        }
        assert(out@.map_values(|t: Tool| t.model()) =~= models.map_values(
            |r: JVal| spec_tool_of(r)->Some_0,
        ));
    }
    out
}

/// Keeps the active definitions, in order.
pub open spec fn spec_active_tools(ts: Seq<ToolDefModel>) -> Seq<ToolDefModel> {
    ts.filter(|t: ToolDefModel| t.active)
}

/// Filters a decoded batch down to the active tools, exactly as
/// `spec_active_tools` states.
pub fn active_tools(ts: Vec<Tool>) -> (r: Vec<Tool>)
    ensures
        r@.map_values(|t: Tool| t.model()) == spec_active_tools(
            ts@.map_values(|t: Tool| t.model()),
        ),
{
    let ghost models = ts@.map_values(|t: Tool| t.model());
    let mut out: Vec<Tool> = Vec::new();
    proof {
        reveal(Seq::filter);
        assert(models.take(0) =~= Seq::<ToolDefModel>::empty());
        assert(out@.map_values(|t: Tool| t.model()) =~= models.take(0).filter(
            |t: ToolDefModel| t.active,
        ));
    }
    let mut k: usize = 0;
    while k < ts.len()
        invariant
            0 <= k <= ts@.len(),
            models == ts@.map_values(|t: Tool| t.model()),
            models.len() == ts@.len(),
            out@.map_values(|t: Tool| t.model()) =~= models.take(k as int).filter(
                |t: ToolDefModel| t.active,
            ),
        decreases ts@.len() - k,
    {
        let ghost pre = models.take(k as int);
        let ghost cur = models.take(k as int + 1);
        proof {
            reveal(Seq::filter);
            assert(cur.drop_last() =~= pre);
            assert(cur.last() == models[k as int]);
        }
        if ts[k].active {
            let ghost before = out@;
            let t = copy_tool(&ts[k]);
            out.push(t);
            proof {
                assert(out@.map_values(|t: Tool| t.model()) =~= before.map_values(
                    |t: Tool| t.model(),
                ).push(models[k as int]));
                assert(cur.filter(|t: ToolDefModel| t.active) =~= pre.filter(
                    |t: ToolDefModel| t.active,
                ).push(models[k as int]));
            }
        } else {
            proof {
                assert(cur.filter(|t: ToolDefModel| t.active) =~= pre.filter(
                    |t: ToolDefModel| t.active,
                ));
            }
        }
        k += 1;
    }
    proof {
        assert(models.take(models.len() as int) =~= models);
    }
    out
}

/// A verified copy of a tool definition with the same model.
pub fn copy_tool(t: &Tool) -> (r: Tool)
    ensures
        r.model() == t.model(),
{
    let title = match &t.title {
        Some(s) => Some(s.clone()),
        None => None,
    };
    let sql_template = match &t.sql_template {
        Some(s) => Some(s.clone()),
        None => None,
    };
    let project_id = match &t.project_id {
        Some(s) => Some(s.clone()),
        None => None,
    };
    let mut pmap: Vec<(String, String)> = Vec::new();
    let mut i: usize = 0;
    while i < t.parameter_map.len()
        invariant
            0 <= i <= t.parameter_map@.len(),
            pmap@.len() == i,
            forall|j: int|
                0 <= j < i ==> (#[trigger] pmap@[j]).0@ == t.parameter_map@[j].0@ && pmap@[j].1@
                    == t.parameter_map@[j].1@,
        decreases t.parameter_map@.len() - i,
    {
        pmap.push((t.parameter_map[i].0.clone(), t.parameter_map[i].1.clone()));
        i += 1;
    }
    let r = Tool {
        name: t.name.clone(),
        title,
        description: t.description.clone(),
        input_schema: t.input_schema.duplicate(),
        execution_type: t.execution_type,
        sql_template,
        parameter_map: pmap,
        project_id,
        active: t.active,
    };
    proof {
        assert(crate::binding::spec_param_rows(r.parameter_map@) =~= crate::binding::spec_param_rows(
            t.parameter_map@,
        ));
    }
    r
}

/// The definition a called name resolves to among the decoded rows: the last
/// active one, as the store hands rows back in order and later rows win.
pub open spec fn spec_last_active(ts: Seq<ToolDefModel>) -> Option<ToolDefModel>
    decreases ts.len(),
{
    if ts.len() == 0 {
        None
    } else if ts[ts.len() - 1].active {
        Some(ts[ts.len() - 1])
    } else {
        spec_last_active(ts.drop_last())
    }
}

/// Picks the resolved definition among decoded rows, exactly as
/// `spec_last_active` over `spec_tools_of_rows` states.
pub fn pick_tool(rows: &Vec<Json>) -> (r: Option<Tool>)
    ensures
        match r {
            Some(t) => spec_last_active(spec_tools_of_rows(jval_seq(rows@))) == Some(t.model()),
            None => spec_last_active(spec_tools_of_rows(jval_seq(rows@))) is None,
        },
{
    let ts = tools_of_rows(rows);
    let ghost models = ts@.map_values(|t: Tool| t.model());
    let mut i: usize = ts.len();
    proof {
        assert(models.take(ts@.len() as int) =~= models);
    }
    while i > 0
        invariant
            0 <= i <= ts@.len(),
            models == ts@.map_values(|t: Tool| t.model()),
            models == spec_tools_of_rows(jval_seq(rows@)),
            models.len() == ts@.len(),
            spec_last_active(models) == spec_last_active(models.take(i as int)),
        decreases i,
    {
        proof {
            assert(models.take(i as int).drop_last() =~= models.take(i as int - 1));
            assert(models.take(i as int).last() == models[i as int - 1]);
        }
        if ts[i - 1].active {
            let t = copy_tool(&ts[i - 1]);
            proof {
                assert(models[i as int - 1] == ts@[i as int - 1].model());
                assert(spec_last_active(models.take(i as int)) == Some(models[i as int - 1]));
            }
            return Some(t);
        }
        proof {
            assert(models[i as int - 1] == ts@[i as int - 1].model());
        }
        i -= 1;
    }
    proof {
        assert(models.take(0) =~= Seq::<ToolDefModel>::empty());
    }
    None
}

} // verus!
