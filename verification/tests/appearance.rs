use iced_winit::appearance::{
    Appearance, Background, Color, DefaultStyle, Extended, Pair, Theme,
};

fn palette() -> Extended {
    Extended {
        background: Background {
            base: Pair {
                color: Color { r: 0x20, g: 0x22, b: 0x25, a: 0xff },
                text: Color { r: 0xff, g: 0xff, b: 0xff, a: 0xff },
            },
        },
    }
}

#[test]
fn default_appearance_is_base_background() {
    let theme = Theme::new(palette());
    let appearance = iced_winit::appearance::default(&theme);
    assert_eq!(
        appearance,
        Appearance {
            background_color: Color { r: 0x20, g: 0x22, b: 0x25, a: 0xff },
            text_color: Color { r: 0xff, g: 0xff, b: 0xff, a: 0xff },
        }
    );
    assert_eq!(theme.default_style(), appearance);
    assert_eq!(*theme.extended_palette(), palette());
}
