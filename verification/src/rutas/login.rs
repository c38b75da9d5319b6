//! Logging in: the checks on the request and on the user found.

use vstd::prelude::*;
use vstd::string::*;
use crate::middleware::sa::ResponseBody;
use crate::modelos::model::Usuario;
use crate::valor::Cuerpo;

verus! {

/// Who a token is issued to.
#[derive(Debug)]
pub struct Credencial {
    pub id: i32,
    pub lvl: i32,
    pub nombre: String,
}

/// First step of `/api/login`: a body without `nickname` or without
/// `password` is refused with "parametros incorrectos" (code 3); otherwise
/// the user is looked up by the nickname, when it is a string (by no name
/// otherwise).
pub fn login(body: &Cuerpo) -> (r: Result<Option<String>, ResponseBody>)
    ensures
        !(body.presente("nickname"@) && body.presente("password"@)) ==> (r matches Err(e)
            && e.es("parametros incorrectos"@, "3"@)),
        body.presente("nickname"@) && body.presente("password"@) ==> (r matches Ok(n) && (
        match n {
            Some(s) => body.texto_en("nickname"@) && s@ == body.texto_de("nickname"@),
            None => !body.texto_en("nickname"@),
        })),
{
    if !body.tiene_clave("nickname") || !body.tiene_clave("password") {
        return Err(ResponseBody::rechazo("parametros incorrectos", "3"));
    }
    if body.es_texto_en("nickname") {
        Ok(Some(body.copia_texto("nickname")))
    } else {
        Ok(None)
    }
}

/// The password sent matches the user's.
pub open spec fn contrasena_correcta(body: Cuerpo, u: Usuario) -> bool {
    u.password matches Some(p) && p@ == body.texto_de("password"@)
}

/// Where the second step of the login panics: a user was found and the
/// password sent is not a string, or it matches and the user has no level or
/// no name.
pub open spec fn login_aborta(body: Cuerpo, usuario: Option<Usuario>) -> bool {
    usuario matches Some(u) && (!body.texto_en("password"@) || (contrasena_correcta(body, u) && (
    u.lvl is None || u.nombre is None)))
}

/// Tells whether the second step of the login would panic.
pub fn login_falla(body: &Cuerpo, usuario: Option<&Usuario>) -> (r: bool)
    ensures
        r == login_aborta(*body, match usuario {
            Some(u) => Some(*u),
            None => None,
        }),
{
    match usuario {
        None => false,
        Some(u) => {
            if !body.es_texto_en("password") {
                return true;
            }
            coincide(body, u) && (u.lvl.is_none() || u.nombre.is_none())
        },
    }
}

fn coincide(body: &Cuerpo, u: &Usuario) -> (r: bool)
    ensures
        r == contrasena_correcta(*body, *u),
{
    let enviada = body.copia_texto("password");
    match &u.password {
        Some(p) => *p == enviada,
        None => false,
    }
}

/// Second step of `/api/login`, given the user found by the nickname: no
/// user is refused with "usuario no encontrado" (code 1), a wrong password
/// with "contraseña incorrecta" (code 2); otherwise a token is issued to the
/// user's id, level and name.
pub fn login_respuesta(body: &Cuerpo, usuario: Option<&Usuario>) -> (r: Result<
    Credencial,
    ResponseBody,
>)
    requires
        !login_aborta(*body, match usuario {
            Some(u) => Some(*u),
            None => None,
        }),
    ensures
        usuario is None ==> (r matches Err(e) && e.es("usuario no encontrado"@, "1"@)),
        usuario matches Some(u) ==> (if contrasena_correcta(*body, *u) {
            r matches Ok(c) && c.id == u.id && Some(c.lvl) == u.lvl && Some(c.nombre) == u.nombre
        } else {
            r matches Err(e) && e.es("contraseña incorrecta"@, "2"@)
        }),
{
    match usuario {
        None => Err(ResponseBody::rechazo("usuario no encontrado", "1")),
        Some(u) => {
            if !coincide(body, u) {
                return Err(ResponseBody::rechazo("contraseña incorrecta", "2"));
            }
            let lvl = match u.lvl {
                Some(l) => l,
                None => 0,
            };
            let nombre = match &u.nombre {
                Some(n) => n.clone(),
                None => String::new(),
            };
            Ok(Credencial { id: u.id, lvl, nombre })
        },
    }
}

} // verus!
