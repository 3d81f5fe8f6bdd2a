use ids_parser::composition::{Composition, CompositionPart, Modifier};
use ids_parser::destr_form::DestructionForm;
use ids_parser::error::ParseError;
use ids_parser::ids::IDS;
use ids_parser::map_special_form;
use ids_parser::origin::Origin;
use ids_parser::sepecial_components::{conv_special, is_special};
use ids_parser::utils::utf_code_to_char;
use ids_parser::xref::{RefType, XRef, XRefItem};

#[test]
fn destruction_table_classifies_each_char() {
    let table = [
        ('⿰', DestructionForm::Vertically),
        ('⿱', DestructionForm::Horizontally),
        ('⿲', DestructionForm::Vertically3),
        ('⿳', DestructionForm::Horizontally3),
        ('⿴', DestructionForm::BoxInner),
        ('⿵', DestructionForm::BoxOpenBottom),
        ('⿶', DestructionForm::BoxOpenTop),
        ('⿷', DestructionForm::BoxOpenRight),
        ('⿸', DestructionForm::BoxOpenBottomRight),
        ('⿹', DestructionForm::BoxOpenBottomLeft),
        ('⿺', DestructionForm::BoxOpenTopRight),
        ('⿻', DestructionForm::Diagonal),
    ];
    for (c, f) in table.iter() {
        assert_eq!(DestructionForm::try_from(*c).unwrap(), *f);
        for (d, g) in table.iter() {
            if d != c {
                assert_ne!(DestructionForm::try_from(*c).unwrap(), *g);
            }
        }
    }
    assert!(matches!(
        DestructionForm::try_from('木'),
        Err(ParseError::InvalidDestructiveForm('木'))
    ));
}

#[test]
fn origins_keep_order_and_repeats() {
    let c = Composition::from_str("^⿰木木$(GGV)").unwrap();
    assert_eq!(c.reg_origins, vec![Origin::China, Origin::China, Origin::Vietnam]);
}

#[test]
fn unknown_origin_letter_is_skipped() {
    let c = Composition::from_str("^⿰木木$(G?V)").unwrap();
    assert_eq!(c.reg_origins, vec![Origin::China, Origin::Vietnam]);
}

#[test]
fn brackets_and_lowercase_in_origins() {
    let c = Composition::from_str("^⿰木木$(g[J]v)").unwrap();
    assert_eq!(c.reg_origins, vec![Origin::China, Origin::Japan, Origin::Vietnam]);
}

#[test]
fn composition_without_suffix_or_end() {
    let c = Composition::from_str("^⿰木木$").unwrap();
    assert!(c.reg_origins.is_empty());
    assert_eq!(c.data.len(), 3);
    let d = Composition::from_str("^⿰木木").unwrap();
    assert_eq!(d.data, c.data);
    assert!(d.reg_origins.is_empty());
}

#[test]
fn unencoded_component_resolves() {
    let c = Composition::from_str("^⿸{55}比$(GHJKTV)").unwrap();
    assert_eq!(c.data[1], CompositionPart::UnencodedComponent(55));
    assert_eq!(conv_special(55), Some('\u{F2D0}'));
    assert_eq!(c.get_radicals(), vec!['\u{F2D0}', '比']);
    let p = Composition::from_str("^{+7}$").unwrap();
    assert_eq!(p.data, vec![CompositionPart::UnencodedComponent(7)]);
}

#[test]
fn unencoded_without_table_entry_is_no_radical() {
    let c = Composition::from_str("^⿰{34}木$").unwrap();
    assert_eq!(c.data[1], CompositionPart::UnencodedComponent(34));
    assert_eq!(c.get_radicals(), vec!['木']);
}

#[test]
fn modifiers_are_parts() {
    let c = Composition::from_str("^↔木$").unwrap();
    assert_eq!(
        c.data,
        vec![CompositionPart::Modifier(Modifier::Mirror), CompositionPart::Radical('木')]
    );
    assert!(Modifier::is_modifier('⊖'));
    assert!(!Modifier::is_modifier('木'));
    assert!(c.data[0].is_modifier());
    assert_eq!(c.data[0].as_modifier(), Some(&Modifier::Mirror));
    assert_eq!(c.data[0].as_radical(), None);
    assert_eq!(c.data[1].as_radical(), Some(&'木'));
    assert!(c.data[1].is_radical());
    assert!(!c.data[1].is_destructive());
}

#[test]
fn part_accessors() {
    let d = CompositionPart::Destructive(DestructionForm::Diagonal);
    assert!(d.is_destructive());
    assert_eq!(d.as_destructive(), Some(&DestructionForm::Diagonal));
    assert_eq!(d.as_unencoded_component(), None);
    let u = CompositionPart::UnencodedComponent(3);
    assert!(u.is_unencoded_component());
    assert_eq!(u.as_unencoded_component(), Some(&3));
    assert_eq!(u.as_destructive(), None);
}

#[test]
fn composition_errors() {
    assert!(matches!(Composition::from_str(""), Err(ParseError::InvalidComposition)));
    assert!(matches!(Composition::from_str("⿰木木$"), Err(ParseError::InvalidComposition)));
    assert!(matches!(Composition::from_str("^{ab}$"), Err(ParseError::UnexpectedCharacter)));
    assert!(matches!(Composition::from_str("^{256}$"), Err(ParseError::UnexpectedCharacter)));
    assert!(matches!(Composition::from_str("^{}$"), Err(ParseError::UnexpectedCharacter)));
    assert!(matches!(Composition::from_str("^⿰{5"), Err(ParseError::UnexpectedCharacter)));
}

#[test]
fn xref_unifiable_variants() {
    let x = XRef::from_str("U+507D≡U+50DE").unwrap();
    assert_eq!(
        x,
        XRef {
            ref_type: RefType::UnifiableVariants,
            left: XRefItem { literal: '偽', src_identifier: None },
            right: XRefItem { literal: '僞', src_identifier: None },
        }
    );
}

#[test]
fn xref_chain_keeps_first_two() {
    let x = XRef::from_str("U+4E8C≠U+2011E≠U+2011F").unwrap();
    assert_eq!(x.ref_type, RefType::FullNoCognate);
    assert_eq!(x.left.literal, '二');
    assert_eq!(x.right.literal, '\u{2011E}');
    let f = XRef::from_str("U+41(J)=U+42").unwrap();
    assert_eq!(f.ref_type, RefType::Full);
    assert_eq!(f.left, XRefItem { literal: 'A', src_identifier: Some(Origin::Japan) });
}

#[test]
fn xref_errors() {
    assert!(matches!(XRef::from_str("U+507DU+50DE"), Err(ParseError::InvalidXRef)));
    assert!(matches!(XRef::from_str("U+D800=U+50DE"), Err(ParseError::InvalidXRef)));
    assert!(matches!(XRef::from_str("U+507D=U+50DE(?)"), Err(ParseError::InvalidOrigin('?'))));
    assert!(matches!(XRefItem::from_str("5098"), Err(ParseError::InvalidXRef)));
    assert!(matches!(XRefItem::from_str("U+XYZ"), Err(ParseError::InvalidXRef)));
    assert!(matches!(XRefItem::from_str("U+XYZ(G)"), Err(ParseError::InvalidXRef)));
    assert!(matches!(XRefItem::from_str("U+110000"), Err(ParseError::InvalidXRef)));
    assert!(matches!(XRefItem::from_str("X+5098"), Err(ParseError::InvalidXRef)));
    assert!(matches!(RefType::try_from('x'), Err(ParseError::InvalidRefType('x'))));
    assert!(matches!(Origin::try_from('?'), Err(ParseError::InvalidOrigin('?'))));
}

#[test]
fn xref_item_suffix_needs_closing() {
    let a = XRefItem::from_str("U+5098(V").unwrap();
    assert_eq!(a.src_identifier, None);
    let b = XRefItem::from_str("U+5098()").unwrap();
    assert_eq!(b.src_identifier, None);
}

#[test]
fn code_points() {
    assert_eq!(utf_code_to_char("U+9ad8"), Some('高'));
    assert_eq!(utf_code_to_char("U+41+2"), None);
    assert_eq!(utf_code_to_char("X+41"), None);
    assert_eq!(utf_code_to_char("U++41"), None);
    assert_eq!(utf_code_to_char("U+4G"), None);
    assert_eq!(utf_code_to_char("U+41"), Some('A'));
    assert_eq!(utf_code_to_char("U+D800"), None);
    assert_eq!(utf_code_to_char("U+110000"), None);
    assert_eq!(utf_code_to_char("U+100000000"), None);
    assert_eq!(utf_code_to_char("U+"), None);
    assert_eq!(utf_code_to_char("9AD8"), None);
}

#[test]
fn record_with_malformed_xref_decodes() {
    let r = IDS::from_str("U+9AD8\t高\t^⿳亠口冋$(GHJKTV)\t*U+507DU+50DE").unwrap();
    assert_eq!(r.literal, '高');
    assert_eq!(r.compositions.len(), 1);
    assert!(r.xrefs.is_empty());
}

#[test]
fn record_without_literal_fails() {
    assert!(matches!(IDS::from_str("U+9AD8"), Err(ParseError::InvalidIDS)));
    assert!(matches!(IDS::from_str("U+9AD8\t\t^⿰木木$"), Err(ParseError::InvalidIDS)));
}

#[test]
fn record_composition_error_is_fatal() {
    assert!(matches!(
        IDS::from_str("U+9AD8\t高\t^{x}$\t*U+507D≡U+50DE"),
        Err(ParseError::UnexpectedCharacter)
    ));
}

#[test]
fn record_keeps_composition_order() {
    let r = IDS::from_str("U+4E12\t丒\t^⿱刃一$(GT)\t^⿱⿹𠃌㐅一$(J)\textra").unwrap();
    assert_eq!(r.compositions.len(), 2);
    assert_eq!(r.compositions[0].reg_origins, vec![Origin::China, Origin::Taiwan]);
    assert_eq!(r.compositions[1].reg_origins, vec![Origin::Japan]);
    assert_eq!(r.comp_by_lang(Origin::Japan), Some(&r.compositions[1]));
}

#[test]
fn comp_by_lang_finds_listed_origin() {
    let r = IDS::from_str("U+9AD8\t高\t^⿳亠口冋$(GHJKTV)").unwrap();
    assert_eq!(r.comp_by_lang(Origin::Japan), Some(&r.compositions[0]));
    assert_eq!(r.comp_by_lang(Origin::UK), None);
}

#[test]
fn special_forms_and_ids() {
    assert_eq!(map_special_form('艹'), '艸');
    assert_eq!(map_special_form('羊'), '⺶');
    assert_eq!(map_special_form('木'), '木');
    assert!(is_special(&'\u{F2D0}'));
    assert!(is_special(&'\u{F5F6}'));
    assert!(!is_special(&'木'));
    assert_eq!(conv_special(1), Some('\u{F2A5}'));
    assert_eq!(conv_special(34), None);
    assert_eq!(conv_special(0), None);
}

#[test]
fn parse_through_from_str_trait() {
    let item: XRefItem = "U+5098(V)".parse().unwrap();
    assert_eq!(item, XRefItem { literal: '傘', src_identifier: Some(Origin::Vietnam) });
    let record: IDS = "U+9AD8\t高\t^⿳亠口冋$(GHJKTV)".parse().unwrap();
    assert_eq!(record.literal, '高');
    let comp: Composition = "^⿰木木$(J)".parse().unwrap();
    assert_eq!(comp.reg_origins, vec![Origin::Japan]);
    let x: XRef = "U+41=U+42".parse().unwrap();
    assert_eq!(x.ref_type, RefType::Full);
}
