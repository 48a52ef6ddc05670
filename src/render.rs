use vstd::prelude::*;
use vstd::string::*;
use crate::plan::{all_classify, first_failure, named_fields, plan, plan_matches, Finish, FieldPlan, Plan};
use crate::schema::{Declaration, GenError};

verus! {

/// The four per-field pieces of the generated code.
#[derive(PartialEq, Eq, Structural, Clone, Copy)]
pub enum Part {
    /// The field's initializer in the entry point: absent.
    Default,
    /// The field's storage slot in the builder type.
    Slot,
    /// The field's mutator.
    Setter,
    /// The field's line in the finalize operation.
    Finish,
}

/// The text of one piece for field `f`, under visibility `vis`.
pub open spec fn part_text(part: Part, vis: Seq<char>, f: FieldPlan) -> Seq<char> {
    match part {
        Part::Default => "            "@ + f.name@ + ": None,\n"@,
        Part::Slot => "    "@ + f.name@ + ": Option<"@ + f.storage@ + ">,\n"@,
        Part::Setter => "    "@ + vis + " fn "@ + f.setter@ + "(&mut self, "@ + f.setter@ + ": "@
            + f.param@ + ") -> &mut Self {\n"@ + match f.finish {
            Finish::Collect => "        self."@ + f.name@ + ".get_or_insert_with(Vec::new).push("@
                + f.setter@ + ");\n"@,
            _ => "        self."@ + f.name@ + " = Some("@ + f.setter@ + ");\n"@,
        } + "        self\n    }\n"@,
        Part::Finish => "            "@ + f.name@ + ": self."@ + f.name@ + match f.finish {
            Finish::Keep => ".clone(),\n"@,
            Finish::Require => ".clone().ok_or_else(|| -> Box<dyn std::error::Error> { \"field "@
                + f.name@ + " isn't set\".into() })?,\n"@,
            Finish::Collect => ".clone().unwrap_or_default(),\n"@,
        },
    }
}

/// The pieces of kind `part` for every field, in order.
pub open spec fn parts_text(part: Part, vis: Seq<char>, fs: Seq<FieldPlan>) -> Seq<char>
    decreases fs.len(),
{
    if fs.len() == 0 {
        Seq::empty()
    } else {
        parts_text(part, vis, fs.drop_last()) + part_text(part, vis, fs.last())
    }
}

/// Appends one piece.
fn push_part(out: &mut String, part: Part, vis: &String, f: &FieldPlan)
    ensures
        final(out)@ == old(out)@ + part_text(part, vis@, *f),
{
    let ghost start = out@;
    match part {
        Part::Default => {
            out.append("            ");
            out.append(f.name.as_str());
            out.append(": None,\n");
        },
        Part::Slot => {
            out.append("    ");
            out.append(f.name.as_str());
            out.append(": Option<");
            out.append(f.storage.as_str());
            out.append(">,\n");
        },
        Part::Setter => {
            out.append("    ");
            out.append(vis.as_str());
            out.append(" fn ");
            out.append(f.setter.as_str());
            out.append("(&mut self, ");
            out.append(f.setter.as_str());
            out.append(": ");
            out.append(f.param.as_str());
            out.append(") -> &mut Self {\n");
            match f.finish {
                Finish::Collect => {
                    out.append("        self.");
                    out.append(f.name.as_str());
                    out.append(".get_or_insert_with(Vec::new).push(");
                    out.append(f.setter.as_str());
                    out.append(");\n");
                },
                _ => {
                    out.append("        self.");
                    out.append(f.name.as_str());
                    out.append(" = Some(");
                    out.append(f.setter.as_str());
                    out.append(");\n");
                },
            }
            out.append("        self\n    }\n");
        },
        Part::Finish => {
            out.append("            ");
            out.append(f.name.as_str());
            out.append(": self.");
            out.append(f.name.as_str());
            match f.finish {
                Finish::Keep => {
                    out.append(".clone(),\n");
                },
                Finish::Require => {
                    out.append(".clone().ok_or_else(|| -> Box<dyn std::error::Error> { \"field ");
                    out.append(f.name.as_str());
                    out.append(" isn't set\".into() })?,\n");
                },
                Finish::Collect => {
                    out.append(".clone().unwrap_or_default(),\n");
                },
            }
        },
    }
    assert(out@ =~= start + part_text(part, vis@, *f));
}

/// Appends the pieces of kind `part` for every field.
fn push_parts(out: &mut String, part: Part, vis: &String, fs: &Vec<FieldPlan>)
    ensures
        final(out)@ == old(out)@ + parts_text(part, vis@, fs@),
{
    let ghost start = out@;
    let mut i: usize = 0;
    while i < fs.len()
        invariant
            i <= fs@.len(),
            out@ == start + parts_text(part, vis@, fs@.take(i as int)),
        decreases fs@.len() - i,
    {
        let ghost before = out@;
        push_part(out, part, vis, &fs[i]);
        assert(fs@.take(i + 1).drop_last() == fs@.take(i as int));
        assert(fs@.take(i + 1).last() == fs@[i as int]);
        assert(out@ =~= start + parts_text(part, vis@, fs@.take(i + 1)));
        i = i + 1;
    }
    assert(fs@.take(fs@.len() as int) == fs@);
}

/// A `where` clause after a header: nothing, or the clause after a space.
pub open spec fn where_text(w: Seq<char>) -> Seq<char> {
    if w.len() == 0 {
        Seq::empty()
    } else {
        " "@ + w
    }
}

fn push_where(out: &mut String, w: &String)
    ensures
        final(out)@ == old(out)@ + where_text(w@),
{
    if w.as_str().unicode_len() != 0 {
        let ghost start = out@;
        out.append(" ");
        out.append(w.as_str());
        assert(out@ =~= start + where_text(w@));
    } else {
        assert(old(out)@ + where_text(w@) =~= old(out)@);
    }
}

/// The generated declarations: the entry point on the record, the builder
/// type, and its mutators and finalize operation. Bounds appear only where
/// parameters are declared; types are named with the bare arguments.
pub open spec fn plan_text(p: Plan) -> Seq<char> {
    let ig = p.impl_generics@;
    let tg = p.type_generics@;
    let w = where_text(p.where_clause@);
    let v = p.vis@;
    let n = p.name@;
    let b = p.builder_name@;
    let fs = p.fields@;
    "impl"@ + ig + " "@ + n + tg + w + " {\n    "@ + v + " fn builder() -> "@ + b + tg + " {\n        "@ + b
        + " {\n"@ + parts_text(Part::Default, v, fs) + "        }\n    }\n}\n\n"@ + v + " struct "@ + b
        + ig + w + " {\n"@ + parts_text(Part::Slot, v, fs) + "}\n\nimpl"@ + ig + " "@ + b + tg + w + " {\n"@
        + parts_text(Part::Setter, v, fs) + "    "@ + v + " fn build(&mut self) -> Result<"@ + n + tg
        + ", Box<dyn std::error::Error>> {\n        Ok("@ + n + " {\n"@ + parts_text(Part::Finish, v, fs)
        + "        })\n    }\n}\n"@
}

/// Writes out the declarations that a plan describes.
pub fn render(p: &Plan) -> (r: String)
    ensures
        r@ == plan_text(*p),
{
    let ig = p.impl_generics.as_str();
    let tg = p.type_generics.as_str();
    let v = p.vis.as_str();
    let n = p.name.as_str();
    let b = p.builder_name.as_str();
    let mut out = String::new();
    out.append("impl");
    out.append(ig);
    out.append(" ");
    out.append(n);
    out.append(tg);
    push_where(&mut out, &p.where_clause);
    out.append(" {\n    ");
    out.append(v);
    out.append(" fn builder() -> ");
    out.append(b);
    out.append(tg);
    out.append(" {\n        ");
    out.append(b);
    out.append(" {\n");
    push_parts(&mut out, Part::Default, &p.vis, &p.fields);
    out.append("        }\n    }\n}\n\n");
    out.append(v);
    out.append(" struct ");
    out.append(b);
    out.append(ig);
    push_where(&mut out, &p.where_clause);
    out.append(" {\n");
    push_parts(&mut out, Part::Slot, &p.vis, &p.fields);
    out.append("}\n\nimpl");
    out.append(ig);
    out.append(" ");
    out.append(b);
    out.append(tg);
    push_where(&mut out, &p.where_clause);
    out.append(" {\n");
    push_parts(&mut out, Part::Setter, &p.vis, &p.fields);
    out.append("    ");
    out.append(v);
    out.append(" fn build(&mut self) -> Result<");
    out.append(n);
    out.append(tg);
    out.append(", Box<dyn std::error::Error>> {\n        Ok(");
    out.append(n);
    out.append(" {\n");
    push_parts(&mut out, Part::Finish, &p.vis, &p.fields);
    out.append("        })\n    }\n}\n");
    assert(out@ =~= plan_text(*p));
    out
}

/// Generates the builder declarations for a record: fails with `Shape`
/// unless the declaration is a named-field record, else with the directive
/// error of the first field whose directives are malformed; no partial output
/// is ever produced.
pub fn derive(d: &Declaration) -> (r: Result<String, GenError>)
    ensures
        named_fields(*d) is None ==> r matches Err(GenError::Shape),
        named_fields(*d) matches Some(fs) ==> match r {
            Ok(text) => all_classify(fs) && exists|p: Plan| plan_matches(p, *d, fs) && text@ == plan_text(p),
            Err(e) => first_failure(fs, e@),
        },
{
    match plan(d) {
        Ok(p) => {
            let text = render(&p);
            Ok(text)
        },
        Err(e) => Err(e),
    }
}

} // verus!
