use tex_rs::attach::Attach;
use tex_rs::convert::Convert;
use tex_rs::element::{
    Chapter, Element, Environment, Input, Level, List, ListMode, Paragraph, Part, Section, Text,
    TextType, UserDefined,
};
use tex_rs::error::TexError;

fn child_of_rank(rank: u8) -> Element {
    match rank {
        0 => Element::from(Part::new("p")),
        1 => Element::from(Chapter::new("c")),
        2 => Element::from(Section::new("s")),
        3 => Element::from(Paragraph::new("g")),
        4 => Element::from(UserDefined::new("u", Level::Body)),
        5 => Element::from(List::new(ListMode::Itemize, &vec![])),
        6 => Element::from(Environment::new("e")),
        7 => Element::from(Input::new("i")),
        _ => Element::from(Text::new("t", TextType::Normal)),
    }
}

#[test]
fn part_takes_every_rank_above_zero() {
    for rank in 0..=8u8 {
        let mut part = Part::new("Part");
        let child = child_of_rank(rank);
        assert_eq!(child.rank(), rank);
        let outcome = part.attach(child);
        assert_eq!(outcome.is_ok(), rank > 0);
        assert_eq!(part.1.len(), if rank > 0 { 1 } else { 0 });
    }
}

#[test]
fn chapter_takes_every_rank_above_one() {
    for rank in 0..=8u8 {
        let mut chapter = Chapter::new("Chapter");
        let outcome = chapter.attach(child_of_rank(rank));
        assert_eq!(outcome.is_ok(), rank > 1);
        assert_eq!(chapter.1.len(), if rank > 1 { 1 } else { 0 });
    }
}

#[test]
fn section_takes_every_rank_above_two() {
    for rank in 0..=8u8 {
        let mut section = Section::new("Section");
        let outcome = section.attach(child_of_rank(rank));
        assert_eq!(outcome.is_ok(), rank > 2);
        assert_eq!(section.1.len(), if rank > 2 { 1 } else { 0 });
    }
}

#[test]
fn paragraph_takes_every_rank_above_three() {
    for rank in 0..=8u8 {
        let mut paragraph = Paragraph::new("Paragraph");
        let outcome = paragraph.attach(child_of_rank(rank));
        assert_eq!(outcome.is_ok(), rank > 3);
        assert_eq!(paragraph.1.unwrap().len(), if rank > 3 { 1 } else { 0 });
    }
}

#[test]
fn environment_takes_text_only() {
    for rank in 0..=8u8 {
        let mut env = Environment::new("center");
        let outcome = env.attach(child_of_rank(rank));
        assert_eq!(outcome.is_ok(), rank > 7);
        assert_eq!(env.1.len(), if rank > 7 { 1 } else { 0 });
    }
}

#[test]
fn a_rejected_child_gives_the_rank_error() {
    let mut section = Section::new("Section");
    assert_eq!(section.attach(Element::from(Chapter::new("c"))), Err(TexError::RankError));
    assert_eq!(section.attach(Element::from(Section::new("s"))), Err(TexError::RankError));
    assert_eq!(section.attach(Element::from(Part::new("p"))), Err(TexError::RankError));
}

#[test]
fn a_rejected_child_leaves_the_children_alone() {
    let mut chapter = Chapter::new("Chapter");
    chapter.attach(Element::from(Section::new("one"))).unwrap();
    chapter.attach(Element::from(Text::new("two", TextType::Normal))).unwrap();
    assert!(chapter.attach(Element::from(Part::new("no"))).is_err());
    assert!(chapter.attach(Element::from(Chapter::new("no"))).is_err());
    let texts: Vec<String> = chapter.1.iter().map(|e| e.to_latex_string()).collect();
    assert_eq!(texts, vec!["\\section{one}", "\\par two"]);
    assert_eq!(chapter.0, "Chapter");
}

#[test]
fn children_stay_in_the_order_of_attachment() {
    let mut part = Part::new("Part");
    part.attach(Element::from(Text::new("first", TextType::Normal))).unwrap();
    part.attach(Element::from(Chapter::new("second"))).unwrap();
    part.attach(Element::from(Input::new("third"))).unwrap();
    part.attach(Element::from(Section::new("fourth"))).unwrap();
    part.attach(Element::from(Chapter::new("fifth"))).unwrap();
    let ranks: Vec<u8> = part.1.iter().map(|e| e.rank()).collect();
    assert_eq!(ranks, vec![8, 1, 7, 2, 1]);
    let texts: Vec<String> = part.1.iter().map(|e| e.to_latex_string()).collect();
    assert_eq!(
        texts,
        vec![
            "\\par first",
            "\\chapter{second}",
            "\\input{third}",
            "\\section{fourth}",
            "\\chapter{fifth}"
        ]
    );
}

#[test]
fn many_children_are_all_kept() {
    let mut paragraph = Paragraph::new("Paragraph");
    for i in 0..50 {
        paragraph.attach(Element::from(Input::new(&format!("file{}", i)))).unwrap();
    }
    let kids = paragraph.1.unwrap();
    assert_eq!(kids.len(), 50);
    for (i, kid) in kids.iter().enumerate() {
        assert_eq!(kid.to_latex_string(), format!("\\input{{file{}}}", i));
    }
}

#[test]
fn environment_stores_the_rendered_text() {
    let mut env = Environment::new("center");
    env.attach(Element::from(Text::new("x", TextType::Bold))).unwrap();
    env.attach(Element::from(Text::new("y", TextType::Normal))).unwrap();
    assert_eq!(env.1, vec!["\\par \\textbf{x}".to_string(), "\\par y".to_string()]);
    assert_eq!(
        env.to_latex_string(),
        "\\begin{center}\n\\par \\textbf{x}\n\\par y\n\\end{center}"
    );
}

#[test]
fn environment_rejects_a_part() {
    let mut env = Environment::new("center");
    env.attach_string("kept".to_owned());
    assert_eq!(env.attach(Element::from(Part::new("Part"))), Err(TexError::RankError));
    assert_eq!(env.attach(Element::from(Input::new("file"))), Err(TexError::RankError));
    assert_eq!(env.1, vec!["kept".to_string()]);
}

#[test]
fn an_attached_subtree_is_kept_whole() {
    let mut section = Section::new("Section");
    section.attach(Element::from(Text::new("deep", TextType::Italic))).unwrap();
    let mut chapter = Chapter::new("Chapter");
    chapter.attach(Element::from(section)).unwrap();
    let mut part = Part::new("Part");
    part.attach(Element::from(chapter)).unwrap();
    assert_eq!(
        Element::from(part).loop_through(),
        "\\chapter{Chapter}\n\\section{Section}\n\\par \\textit{deep}\n"
    );
}
