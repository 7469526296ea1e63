use uiscript::config::window::Window;
use uiscript::config::Config;
use uiscript::engine::{Engine, Expr};
use uiscript::widget::{Box, Button, Grid, Label, WidgetDefinition};

#[test]
fn box_defaults_to_an_empty_vertical_container() {
    let b = Box::default();
    assert_eq!(b.orientation.js_code, "vertical");
    assert_eq!(b.spacing.js_code, "0");
    assert!(b.children.is_empty());
}

#[test]
fn grid_defaults_to_an_empty_vertical_container() {
    let g = Grid::default();
    assert_eq!(g.orientation.js_code, "vertical");
    assert!(g.children.is_empty());
}

#[test]
fn button_defaults_to_empty_text() {
    let b = Button::default();
    assert_eq!(b.content, "");
}

#[test]
fn default_attribute_expressions_evaluate() {
    let mut engine = Engine::new();
    let b = Box::default();
    let spacing = engine.parse(&b.spacing).unwrap();
    assert_eq!(engine.eval_i32(&spacing).unwrap(), 0);
}

#[test]
fn a_config_holds_its_widget_tree() {
    let config = Config {
        windows: vec![Window {
            name: String::from("main"),
            widgets: vec![
                WidgetDefinition::Label(Label { content: String::from("hello") }),
                WidgetDefinition::Box(Box {
                    orientation: Expr::new(String::from("horizontal")),
                    spacing: Expr::new(String::from("2 + 3")),
                    children: vec![WidgetDefinition::Button(Button::default())],
                }),
            ],
        }],
    };

    assert_eq!(config.windows.len(), 1);
    assert_eq!(config.windows[0].name, "main");
    assert_eq!(config.windows[0].widgets.len(), 2);

    let mut engine = Engine::new();
    if let WidgetDefinition::Box(b) = &config.windows[0].widgets[1] {
        let spacing = engine.parse(&b.spacing).unwrap();
        assert_eq!(engine.eval_i32(&spacing).unwrap(), 5);
    } else {
        panic!("expected a box");
    }
}
