use mine_sweeper_ui::button::Button;
use mine_sweeper_ui::button::ButtonSection;
use mine_sweeper_ui::button::LabelPart;
use mine_sweeper_ui::color::Color;
use mine_sweeper_ui::grid::Grid;
use mine_sweeper_ui::gui_config::GuiConfig;
use mine_sweeper_ui::gui_config::SectionButtons;
use mine_sweeper_ui::symbol::NumberSymbol;
use mine_sweeper_ui::symbol::Symbol;

#[test]
fn number_symbol_accepts_up_to_eight() {
    assert!(NumberSymbol::try_from(8).is_ok());
    assert!(NumberSymbol::try_from(9).is_err());
    assert_eq!(NumberSymbol::try_from(3).unwrap().value(), 3);
    assert_eq!(NumberSymbol::try_from(0).unwrap().value(), 0);
    let e = NumberSymbol::try_from(200).unwrap_err();
    assert_eq!(e.value, 200);
    assert_eq!(u8::from(NumberSymbol::try_from(5).unwrap()), 5);
}

#[test]
fn symbol_defaults_to_cover() {
    assert_eq!(Symbol::default(), Symbol::Cover);
    assert_eq!(NumberSymbol::default().value(), 0);
}

#[test]
fn color_construction() {
    let c = Color::rgba(1, 2, 3, 4);
    assert_eq!((c.r, c.g, c.b, c.a), (1, 2, 3, 4));
    let o = Color::rgb(10, 20, 30);
    assert_eq!(o.a, 255);
    assert_eq!(Color::default(), Color::rgb(0, 0, 0));
    assert_eq!(Color::from((1, 2, 3, 4)), Color::rgba(1, 2, 3, 4));
    assert_eq!(Color::from((9, 8, 7)), Color::rgb(9, 8, 7));
}

#[test]
fn button_new_and_add_keep_label_order() {
    let b = Button::new(
        "flags".to_string(),
        Some(Color::rgb(255, 0, 0)),
        vec![LabelPart::Text("left: ".to_string())],
        true,
    );
    assert_eq!(b.id, "flags");
    assert_eq!(b.color, Some(Color::rgb(255, 0, 0)));
    assert!(b.click_able);
    let b = b.add(LabelPart::Symbol(Symbol::Flag)).add(LabelPart::Text("!".to_string()));
    assert_eq!(
        b.label,
        vec![
            LabelPart::Text("left: ".to_string()),
            LabelPart::Symbol(Symbol::Flag),
            LabelPart::Text("!".to_string()),
        ]
    );
}

#[test]
fn button_section_defaults_to_up() {
    assert_eq!(ButtonSection::default(), ButtonSection::Up);
}

#[test]
fn section_buttons_keep_sections_apart() {
    let mut sections = SectionButtons::new();
    assert!(sections.get(ButtonSection::Up).is_empty());
    let restart = Button::new("restart".to_string(), None, Vec::new(), true);
    sections.set(ButtonSection::Down, vec![restart.clone()]);
    assert_eq!(sections.get(ButtonSection::Down).len(), 1);
    assert!(sections.get(ButtonSection::Up).is_empty());
    assert!(sections.get(ButtonSection::OverGrid).is_empty());
    assert_eq!(sections.get(ButtonSection::Down)[0].id, "restart");
}

#[test]
fn gui_config_carries_buttons_and_grid() {
    let grid = Grid::new(2, 2).unwrap();
    let config = GuiConfig::new(SectionButtons::new(), grid.clone());
    assert_eq!(config.grid, grid);
    assert!(config.buttons.up.is_empty());
}
