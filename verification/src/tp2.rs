//! Rendering the skeleton tp2 script of a generated mod.

use vstd::prelude::*;
use vstd::string::*;

use crate::errors::InstallError;
use crate::gen_mod::GeneratedMod;

verus! {

/// The rendered tp2 text for the given template values, as handlebars
/// renders the fixed skeleton template; `None` when rendering fails. A
/// function of the four values alone.
pub uninterp spec fn tp2_render_of(
    date: Seq<char>,
    mod_name: Seq<char>,
    component_name: Seq<char>,
    index: int,
) -> Option<Seq<char>>;

/// Relies on `handlebars::Handlebars::render_template`: rendering the fixed
/// skeleton template is a function of the substituted values alone.
#[verifier::external_body]
fn render_tp2(date: &str, mod_name: &str, component_name: &str, index: u32) -> (r: Option<String>)
    ensures
        match r {
            Option::Some(s) => tp2_render_of(date@, mod_name@, component_name@, index as int)
                == Option::Some(s@),
            Option::None => tp2_render_of(date@, mod_name@, component_name@, index as int) is None,
        },
{
    let template = "\n/*\n * TP2 generated by modda\n * {{date}}\n*/\nBACKUP ~weidu_external//backup/{{mod_name}}~\nAUTHOR ~generated by modda~\n\nBEGIN ~{{component_name}}~\nDESIGNATED ~{{index}}~\n\nCOPY ~{{mod_name}}/data~ ~override~\n\n";
    let registry = handlebars::Handlebars::new();
    let mut data = serde_json::Map::new();
    data.insert("date".to_string(), serde_json::Value::from(date));
    data.insert("mod_name".to_string(), serde_json::Value::from(mod_name));
    data.insert("component_name".to_string(), serde_json::Value::from(component_name));
    data.insert("index".to_string(), serde_json::Value::from(index));
    registry.render_template(template, &serde_json::Value::Object(data)).ok()
}

/// Relies on `chrono::Utc::now`: the current time's usual text form, a
/// value that changes from call to call.
#[verifier::external_body]
fn now_utc_string() -> (r: String)
{
    chrono::Utc::now().to_string()
}

/// The component name the tp2 script declares: the configured name, or the
/// mod's own name when none (or an empty one) is configured.
pub open spec fn component_name_spec(gen: &GeneratedMod) -> Seq<char> {
    match gen.component.name {
        Option::Some(ref n) => if n@.len() == 0 {
            gen.gen_mod@
        } else {
            n@
        },
        Option::None => gen.gen_mod@,
    }
}

/// Renders the tp2 script of a generated mod: the skeleton template with
/// the current date, the mod's name, its component name and its component
/// index substituted.
pub fn generate_tp2(gen: &GeneratedMod) -> (r: Result<String, InstallError>)
    ensures
        match r {
            Ok(s) => exists|date: Seq<char>|
                tp2_render_of(
                    date,
                    gen.gen_mod@,
                    component_name_spec(gen),
                    gen.component.index as int,
                ) == Option::Some(s@),
            Err(e) => e is Upstream && exists|date: Seq<char>|
                #[trigger] tp2_render_of(
                    date,
                    gen.gen_mod@,
                    component_name_spec(gen),
                    gen.component.index as int,
                ) is None,
        },
{
    let component_name: String = match &gen.component.name {
        None => String::from_str(gen.gen_mod.as_str()),
        Some(n) => {
            if n.as_str().unicode_len() == 0 {
                String::from_str(gen.gen_mod.as_str())
            } else {
                n.clone()
            }
        }
    };
    let date = now_utc_string();
    match render_tp2(
        date.as_str(),
        gen.gen_mod.as_str(),
        component_name.as_str(),
        gen.component.index,
    ) {
        Some(s) => {
            proof {
                assert(tp2_render_of(
                    date@,
                    gen.gen_mod@,
                    component_name_spec(gen),
                    gen.component.index as int,
                ) == Option::Some(s@));
            }
            Ok(s)
        }
        None => {
            proof {
                assert(tp2_render_of(
                    date@,
                    gen.gen_mod@,
                    component_name_spec(gen),
                    gen.component.index as int,
                ) is None);
            }
            Err(InstallError::Upstream { detail: String::from_str(gen.gen_mod.as_str()) })
        },
    }
}

} // verus!
