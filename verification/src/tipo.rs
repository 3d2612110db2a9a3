//! La clase de una vivienda y su etiqueta de texto.

use vstd::prelude::*;

verus! {

/// La clase de una vivienda: un conjunto cerrado de tres valores.
#[derive(Debug, Clone, Copy, PartialEq, Eq, Structural)]
pub enum Tipo {
    Apartamento,
    Casa,
    Chalet,
}

impl Tipo {
    /// La etiqueta con la que se escribe cada clase.
    pub open spec fn etiqueta(self) -> Seq<char> {
        match self {
            Tipo::Apartamento => "Apartamento"@,
            Tipo::Casa => "Casa"@,
            Tipo::Chalet => "Chalet"@,
        }
    }

    /// La clase que nombra `s`; un texto que no es una de las tres
    /// etiquetas, letra por letra, no nombra ninguna.
    pub open spec fn de_etiqueta(s: Seq<char>) -> Result<Tipo, ()> {
        if s == "Apartamento"@ {
            Ok(Tipo::Apartamento)
        } else if s == "Casa"@ {
            Ok(Tipo::Casa)
        } else if s == "Chalet"@ {
            Ok(Tipo::Chalet)
        } else {
            Err(())
        }
    }

    /// Lee una clase de su etiqueta.
    pub fn from_str(input: &str) -> (r: Result<Tipo, ()>)
        ensures
            r == Tipo::de_etiqueta(input@),
    {
        let texto = input.to_owned();
        if texto == "Apartamento".to_owned() {
            Ok(Tipo::Apartamento)
        } else if texto == "Casa".to_owned() {
            Ok(Tipo::Casa)
        } else if texto == "Chalet".to_owned() {
            Ok(Tipo::Chalet)
        } else {
            Err(())
        }
    }

    /// Escribe la etiqueta de la clase.
    pub fn to_string(&self) -> (s: String)
        ensures
            s@ == self.etiqueta(),
    {
        match self {
            Tipo::Apartamento => "Apartamento".to_owned(),
            Tipo::Casa => "Casa".to_owned(),
            Tipo::Chalet => "Chalet".to_owned(),
        }
    }
}

/// Las tres etiquetas son distintas entre sí.
proof fn lema_etiquetas_distintas()
    ensures
        "Apartamento"@ != "Casa"@,
        "Apartamento"@ != "Chalet"@,
        "Casa"@ != "Chalet"@,
{
    reveal_strlit("Apartamento");
    reveal_strlit("Casa");
    reveal_strlit("Chalet");
    assert("Apartamento"@.len() == 11);
    assert("Casa"@.len() == 4);
    assert("Chalet"@.len() == 6);
}

/// La etiqueta de una clase se lee como esa misma clase.
pub proof fn lema_etiqueta_ida_y_vuelta(t: Tipo)
    ensures
        Tipo::de_etiqueta(t.etiqueta()) == Ok::<Tipo, ()>(t),
{
    lema_etiquetas_distintas();
}

/// Un texto que nombra una clase es exactamente la etiqueta de esa clase.
pub proof fn lema_etiqueta_unica(s: Seq<char>, t: Tipo)
    requires
        Tipo::de_etiqueta(s) == Ok::<Tipo, ()>(t),
    ensures
        s == t.etiqueta(),
{
}

} // verus!
