use viviendas::edicion::{
    buscar_linea, es_solo_blancos, iguales_sin_caja, lineas_con_prefijo, lineas_filtradas,
};
use viviendas::entidad::{ScreenOutput, TipoVivienda};
use viviendas::Tipo;

fn vivienda(identificacion: &str, calle: &str) -> TipoVivienda {
    TipoVivienda {
        identificacion: String::from(identificacion),
        calle: String::from(calle),
        numero: 4,
        piso: String::from("1C"),
        codigo_postal: String::from("28350"),
        metros_cuadrados: 80,
        numero_aseos: 1,
        numero_habitaciones: 2,
        tipo: Tipo::Apartamento,
    }
}

fn lista() -> Vec<TipoVivienda> {
    vec![vivienda("a1", "San Isidro"), vivienda("B2", "Chile"), vivienda("a1", "Repetida")]
}

#[test]
fn compara_textos_sin_distinguir_mayusculas_ascii() {
    assert!(iguales_sin_caja("", ""));
    assert!(iguales_sin_caja("abc", "ABC"));
    assert!(iguales_sin_caja("AbC1-z", "aBc1-Z"));
    assert!(iguales_sin_caja("[@`{", "[@`{"));
    assert!(!iguales_sin_caja("abc", "abd"));
    assert!(!iguales_sin_caja("abc", "ab"));
    assert!(!iguales_sin_caja("ab", "abc"));
    assert!(!iguales_sin_caja("@", "`"));
    assert!(!iguales_sin_caja("[", "{"));
    assert!(!iguales_sin_caja("ñ", "Ñ"));
    assert!(iguales_sin_caja("ñA", "ña"));
}

#[test]
fn compara_como_la_biblioteca_estandar() {
    let textos = ["", "a", "A", "z", "Z", "@", "[", "`", "{", "aZ", "Az", "é", "É", "a1", "A1", "ab"];
    for a in textos {
        for b in textos {
            assert_eq!(iguales_sin_caja(a, b), a.eq_ignore_ascii_case(b), "{:?} {:?}", a, b);
        }
    }
}

#[test]
fn reconoce_los_textos_en_blanco() {
    assert!(es_solo_blancos(""));
    assert!(es_solo_blancos(" "));
    assert!(es_solo_blancos(" \t\r\n\u{b}\u{c}"));
    assert!(es_solo_blancos("\u{85}\u{a0}\u{1680}\u{2000}\u{200a}\u{2028}\u{2029}\u{202f}\u{205f}\u{3000}"));
    assert!(!es_solo_blancos("a"));
    assert!(!es_solo_blancos("  a  "));
    assert!(!es_solo_blancos("\u{200b}"));
    assert!(!es_solo_blancos("\u{8}"));
    assert!(!es_solo_blancos("\u{e}"));
    assert!(!es_solo_blancos("\u{1f}"));
}

#[test]
fn los_blancos_son_los_de_la_biblioteca_estandar() {
    for codigo in 0..=0x10ffffu32 {
        if let Some(c) = char::from_u32(codigo) {
            let texto = c.to_string();
            assert_eq!(es_solo_blancos(&texto), c.is_whitespace(), "{:x}", codigo);
            assert_eq!(es_solo_blancos(&texto), texto.trim().is_empty(), "{:x}", codigo);
        }
    }
}

#[test]
fn busca_la_primera_vivienda_con_esa_linea() {
    let modelo = lista();
    assert_eq!(buscar_linea(&modelo, &modelo[0].toScreen()), Some(0));
    assert_eq!(buscar_linea(&modelo, &modelo[1].toScreen()), Some(1));
    assert_eq!(buscar_linea(&modelo, &modelo[2].toScreen()), Some(2));
    assert_eq!(
        buscar_linea(&modelo, "\"b2\",\"CHILE\",4,\"1c\",\"28350\",80,1,2,apartamento"),
        Some(1)
    );
    assert_eq!(buscar_linea(&modelo, "\"B2\",\"Chile\""), None);
    assert_eq!(buscar_linea(&modelo, ""), None);
    assert_eq!(buscar_linea(&Vec::new(), &modelo[0].toScreen()), None);
}

#[test]
fn de_dos_viviendas_con_la_misma_linea_encuentra_la_primera() {
    let modelo = vec![vivienda("x", "y"), vivienda("a", "Calle"), vivienda("A", "calle")];
    assert_eq!(buscar_linea(&modelo, &modelo[2].toScreen()), Some(1));
}

#[test]
fn sin_filtro_se_muestran_todas_las_lineas() {
    let modelo = lista();
    let todas: Vec<String> = modelo.iter().map(|v| v.toScreen()).collect();
    assert_eq!(lineas_filtradas(&modelo, ""), todas);
    assert_eq!(lineas_filtradas(&modelo, "   "), todas);
    assert_eq!(lineas_filtradas(&modelo, "\t"), todas);
    assert_eq!(lineas_con_prefijo(&modelo, ""), todas);
    assert_eq!(lineas_filtradas(&Vec::new(), ""), Vec::<String>::new());
}

#[test]
fn con_filtro_se_muestran_las_viviendas_con_ese_identificador() {
    let modelo = lista();
    assert_eq!(
        lineas_filtradas(&modelo, "A1"),
        vec![modelo[0].toScreen(), modelo[2].toScreen()]
    );
    assert_eq!(lineas_filtradas(&modelo, "b2"), vec![modelo[1].toScreen()]);
    assert_eq!(lineas_filtradas(&modelo, "B2"), vec![modelo[1].toScreen()]);
    assert_eq!(lineas_filtradas(&modelo, "a"), Vec::<String>::new());
    assert_eq!(lineas_filtradas(&modelo, " a1"), Vec::<String>::new());
    assert_eq!(lineas_filtradas(&modelo, "c3"), Vec::<String>::new());
}

#[test]
fn el_filtro_se_pasa_a_minusculas_antes_de_comparar() {
    let modelo = vec![vivienda("ñ", "x"), vivienda("Ñ", "y")];
    assert_eq!(lineas_filtradas(&modelo, "Ñ"), vec![modelo[0].toScreen()]);
    assert_eq!(lineas_filtradas(&modelo, "ñ"), vec![modelo[0].toScreen()]);
    assert_eq!(lineas_con_prefijo(&modelo, "Ñ"), vec![modelo[1].toScreen()]);
}
