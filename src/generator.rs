use vstd::prelude::*;

use crate::text::push_str;

verus! {

/// The short prompt: the context, if any, then who speaks and what was said.
pub open spec fn short_prompt_spec(user_text: Seq<char>, nombre: Seq<char>, contexto: Option<Seq<char>>) -> Seq<char> {
    match contexto {
        Some(ctx) => "Contexto: "@ + ctx + "\nCliente ("@ + nombre + "): "@ + user_text,
        None => "Cliente ("@ + nombre + "): "@ + user_text,
    }
}

/// The instruction that follows the short prompt in the user message.
pub open spec fn reply_instruction() -> Seq<char> {
    "\n\nResponde como María, natural (80-110 chars). Usa muletillas colombianas. NUNCA cortes frases:"@
}

pub open spec fn opt_str(o: Option<&str>) -> Option<Seq<char>> {
    match o {
        Some(s) => Some(s@),
        None => None,
    }
}

/// The short prompt for one turn.
pub fn short_prompt(user_text: &str, nombre: &str, contexto: Option<&str>) -> (r: String)
    ensures
        r@ == short_prompt_spec(user_text@, nombre@, opt_str(contexto)),
{
    let mut p = String::new();
    match contexto {
        Some(ctx) => {
            push_str(&mut p, "Contexto: ");
            push_str(&mut p, ctx);
            push_str(&mut p, "\nCliente (");
        },
        None => {
            push_str(&mut p, "Cliente (");
        },
    }
    push_str(&mut p, nombre);
    push_str(&mut p, "): ");
    push_str(&mut p, user_text);
    p
}

/// The user message sent to the reply generator for one turn.
pub fn user_message(user_text: &str, nombre: &str, contexto: Option<&str>) -> (r: String)
    ensures
        r@ == short_prompt_spec(user_text@, nombre@, opt_str(contexto)) + reply_instruction(),
{
    let mut m = short_prompt(user_text, nombre, contexto);
    push_str(
        &mut m,
        "\n\nResponde como María, natural (80-110 chars). Usa muletillas colombianas. NUNCA cortes frases:",
    );
    m
}

} // verus!
