use tex_rs::attach::Attach;
use tex_rs::convert::Convert;
use tex_rs::element::{
    Chapter, Element, Environment, Input, Level, List, ListMode, Paragraph, Part, Section, Text,
    TextType, UserDefined,
};
use tex_rs::error::TexError;

fn one_of_each() -> Vec<Element> {
    vec![
        Element::from(Part::new("p")),
        Element::from(Chapter::new("c")),
        Element::from(Section::new("s")),
        Element::from(Paragraph::new("g")),
        Element::from(UserDefined::new("u", Level::Body)),
        Element::from(List::new(ListMode::Itemize, &vec![])),
        Element::from(Environment::new("e")),
        Element::from(Input::new("i")),
        Element::from(Text::new("t", TextType::Normal)),
    ]
}

#[test]
fn ranks_follow_the_hierarchy() {
    let ranks: Vec<u8> = one_of_each().iter().map(|e| e.rank()).collect();
    assert_eq!(ranks, vec![0, 1, 2, 3, 4, 5, 6, 7, 8]);
}

#[test]
fn constructors_start_without_children() {
    let part = Part::new("Part 1");
    assert_eq!(part.0, "Part 1");
    assert!(part.1.is_empty());
    let chapter = Chapter::new("Chapter 1");
    assert_eq!(chapter.0, "Chapter 1");
    assert!(chapter.1.is_empty());
    let section = Section::new("Section 1");
    assert_eq!(section.0, "Section 1");
    assert!(section.1.is_empty());
    let env = Environment::new("equation");
    assert_eq!(env.0, "equation");
    assert!(env.1.is_empty());
}

#[test]
fn paragraph_constructor_fills_the_slot() {
    let paragraph = Paragraph::new("Paragraph 1");
    assert_eq!(paragraph.0, "Paragraph 1");
    assert_eq!(paragraph.1.map(|v| v.len()), Some(0));
}

#[test]
fn leaf_constructors_keep_their_payload() {
    let text = Text::new("some text", TextType::Italic);
    assert_eq!(text.0, "some text");
    assert_eq!(text.1, TextType::Italic);
    let input = Input::new("chapter1.tex");
    assert_eq!(input.0, "chapter1.tex");
    let ud = UserDefined::new("\\newcommand{\\x}{y}", Level::Meta);
    assert_eq!(ud.0, "\\newcommand{\\x}{y}");
    assert_eq!(ud.1, Level::Meta);
    let items = vec!["a".to_string(), "b".to_string()];
    let list = List::new(ListMode::Enumerate, &items);
    assert_eq!(list.0, ListMode::Enumerate);
    assert_eq!(list.1, items);
}

#[test]
fn headings_render_as_commands() {
    assert_eq!(Part::new("Part 1").to_latex_string(), "\\part{Part 1}");
    assert_eq!(Chapter::new("Chapter 1").to_latex_string(), "\\chapter{Chapter 1}");
    assert_eq!(Section::new("Section 1").to_latex_string(), "\\section{Section 1}");
    assert_eq!(Paragraph::new("Paragraph 1").to_latex_string(), "\\paragraph{Paragraph 1}");
    assert_eq!(Input::new("intro").to_latex_string(), "\\input{intro}");
}

#[test]
fn bold_text_renders_behind_a_paragraph_break() {
    assert_eq!(Text::new("x", TextType::Bold).to_latex_string(), "\\par \\textbf{x}");
}

#[test]
fn every_text_style_renders() {
    assert_eq!(Text::new("x", TextType::Normal).to_latex_string(), "\\par x");
    assert_eq!(Text::new("x", TextType::Italic).to_latex_string(), "\\par \\textit{x}");
    assert_eq!(Text::new("x", TextType::Underline).to_latex_string(), "\\par \\underline{x}");
    assert_eq!(Text::new("x", TextType::Roman).to_latex_string(), "\\par \\textrm{x}");
    assert_eq!(Text::new("a{b}", TextType::Verbatim).to_latex_string(), "\\par \\verb!a{b}!");
}

#[test]
fn content_is_not_escaped() {
    assert_eq!(Section::new("50% & more_").to_latex_string(), "\\section{50% & more_}");
    assert_eq!(Text::new("", TextType::Normal).to_latex_string(), "\\par ");
}

#[test]
fn environment_renders_its_items_between_markers() {
    let mut env = Environment::new("equation");
    assert_eq!(env.to_latex_string(), "\\begin{equation}\n\\end{equation}");
    env.attach_string("x^2 + y^2 = z^2".to_owned());
    env.attach_string("a = b".to_owned());
    assert_eq!(env.1, vec!["x^2 + y^2 = z^2".to_string(), "a = b".to_string()]);
    assert_eq!(
        env.to_latex_string(),
        "\\begin{equation}\nx^2 + y^2 = z^2\na = b\n\\end{equation}"
    );
}

#[test]
fn lists_render_in_both_modes() {
    let items = vec!["item 1".to_owned(), "item 2".to_owned(), "item 3".to_owned()];
    assert_eq!(
        List::new(ListMode::Enumerate, &items).to_latex_string(),
        "\\begin{enumerate}\n\\item item 1\n\\item item 2\n\\item item 3\n\\end{enumerate}"
    );
    assert_eq!(
        List::new(ListMode::Itemize, &items).to_latex_string(),
        "\\begin{itemize}\n\\item item 1\n\\item item 2\n\\item item 3\n\\end{itemize}"
    );
    assert_eq!(
        List::new(ListMode::Itemize, &vec![]).to_latex_string(),
        "\\begin{itemize}\n\\end{itemize}"
    );
}

#[test]
fn user_defined_renders_unchanged() {
    for level in [Level::Meta, Level::Package, Level::Body] {
        assert_eq!(UserDefined::new("\\foo{bar}", level).to_latex_string(), "\\foo{bar}");
    }
}

#[test]
fn evaluate_sorts_content_by_level() {
    let e = String::new();
    assert_eq!(
        UserDefined::new("x", Level::Body).evaluate(),
        ("x".to_string(), e.clone(), e.clone())
    );
    assert_eq!(
        UserDefined::new("x", Level::Meta).evaluate(),
        (e.clone(), "x".to_string(), e.clone())
    );
    assert_eq!(
        UserDefined::new("x", Level::Package).evaluate(),
        (e.clone(), e.clone(), "x".to_string())
    );
}

#[test]
fn an_element_renders_as_its_payload_does() {
    let expected = vec![
        "\\part{p}",
        "\\chapter{c}",
        "\\section{s}",
        "\\paragraph{g}",
        "u",
        "\\begin{itemize}\n\\end{itemize}",
        "\\begin{e}\n\\end{e}",
        "\\input{i}",
        "\\par t",
    ];
    let got: Vec<String> = one_of_each().iter().map(|e| e.to_latex_string()).collect();
    assert_eq!(got, expected);
}

#[test]
fn string_from_element_is_its_text() {
    let e = Element::from(Text::new("text in part 2", TextType::Roman));
    assert_eq!(String::from(e), "\\par \\textrm{text in part 2}");
}

#[test]
fn element_from_keeps_the_kind() {
    assert!(matches!(Element::from(Part::new("a")), Element::Part(_)));
    assert!(matches!(Element::from(Chapter::new("a")), Element::Chapter(_)));
    assert!(matches!(Element::from(Section::new("a")), Element::Section(_)));
    assert!(matches!(Element::from(Paragraph::new("a")), Element::Paragraph(_)));
    assert!(matches!(Element::from(Text::new("a", TextType::Normal)), Element::Text(_)));
    assert!(matches!(Element::from(Input::new("a")), Element::Input(_)));
    assert!(matches!(Element::from(Environment::new("a")), Element::Environment(_)));
    assert!(matches!(Element::from(UserDefined::new("a", Level::Body)), Element::UserDefined(_)));
    assert!(matches!(Element::from(List::new(ListMode::Itemize, &vec![])), Element::List(_)));
}

#[test]
fn clone_copies_the_whole_tree() {
    let mut chapter = Chapter::new("Chapter");
    chapter.attach(Element::from(Text::new("t", TextType::Bold))).unwrap();
    let mut part = Part::new("Part");
    part.attach(Element::from(chapter)).unwrap();
    let tree = Element::from(part);
    let copy = tree.clone();
    assert_eq!(copy.to_latex_string(), tree.to_latex_string());
    assert_eq!(copy.loop_through(), tree.loop_through());
    assert_eq!(copy.loop_through(), "\\chapter{Chapter}\n\\par \\textbf{t}\n");
}

#[test]
fn get_vec_gives_children_of_structural_containers_only() {
    let mut section = Section::new("s");
    section.attach(Element::from(Input::new("a"))).unwrap();
    section.attach(Element::from(Input::new("b"))).unwrap();
    let kids = Element::from(section).get_vec().unwrap();
    let texts: Vec<String> = kids.iter().map(|e| e.to_latex_string()).collect();
    assert_eq!(texts, vec!["\\input{a}", "\\input{b}"]);
    assert_eq!(Element::from(Part::new("p")).get_vec().map(|v| v.len()), Some(0));
    assert_eq!(Element::from(Chapter::new("p")).get_vec().map(|v| v.len()), Some(0));
    assert_eq!(Element::from(Paragraph::new("p")).get_vec().map(|v| v.len()), Some(0));
    let mut env = Environment::new("e");
    env.attach_string("line".to_owned());
    assert!(Element::from(env).get_vec().is_none());
    assert!(Element::from(Text::new("t", TextType::Normal)).get_vec().is_none());
    assert!(Element::from(Input::new("t")).get_vec().is_none());
    assert!(Element::from(UserDefined::new("t", Level::Meta)).get_vec().is_none());
    assert!(Element::from(List::new(ListMode::Itemize, &vec!["x".to_owned()])).get_vec().is_none());
}

#[test]
fn the_error_has_a_message() {
    assert_eq!(TexError::RankError.message(), "Rank Error");
    assert_eq!(TexError::RankError, TexError::RankError);
}

#[test]
fn well_formedness_looks_for_empty_paragraph_slots() {
    assert!(Element::from(Paragraph::new("p")).is_well_formed());
    assert!(Element::from(Part::new("p")).is_well_formed());
    assert!(Element::from(Text::new("t", TextType::Normal)).is_well_formed());
    let hollow = Element::Paragraph(Paragraph("p".to_string(), None));
    assert!(!hollow.is_well_formed());
    let mut section = Section::new("s");
    section.attach(Element::from(Input::new("fine"))).unwrap();
    assert!(Element::from(section.clone()).is_well_formed());
    section.attach(hollow).unwrap();
    assert!(!Element::from(section.clone()).is_well_formed());
    let mut part = Part::new("p");
    part.attach(Element::from(section)).unwrap();
    assert!(!Element::from(part).is_well_formed());
}

#[test]
fn a_hollow_paragraph_still_turns_low_ranks_away() {
    let mut hollow = Paragraph("p".to_string(), None);
    assert_eq!(hollow.attach(Element::from(Section::new("s"))), Err(TexError::RankError));
    assert_eq!(hollow.attach(Element::from(Paragraph::new("q"))), Err(TexError::RankError));
    assert!(hollow.1.is_none());
    assert_eq!(hollow.to_latex_string(), "\\paragraph{p}");
}
