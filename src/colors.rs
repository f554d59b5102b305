use vstd::prelude::*;

use crate::text::str_eq;

verus! {

/// The ANSI escape code of a named terminal color, where the name is known:
/// black, red, green, yellow, blue, magenta, cyan (each also `_bright`,
/// but black), white, and reset.
pub open spec fn color_code(name: Seq<char>) -> Option<Seq<char>> {
    if name == "black"@ {
        Some("\x1b[30m"@)
    } else if name == "red"@ {
        Some("\x1b[31m"@)
    } else if name == "red_bright"@ {
        Some("\x1b[31;1m"@)
    } else if name == "green"@ {
        Some("\x1b[32m"@)
    } else if name == "green_bright"@ {
        Some("\x1b[32;1m"@)
    } else if name == "yellow"@ {
        Some("\x1b[33m"@)
    } else if name == "yellow_bright"@ {
        Some("\x1b[33;1m"@)
    } else if name == "blue"@ {
        Some("\x1b[34m"@)
    } else if name == "blue_bright"@ {
        Some("\x1b[34;1m"@)
    } else if name == "magenta"@ {
        Some("\x1b[35m"@)
    } else if name == "magenta_bright"@ {
        Some("\x1b[35;1m"@)
    } else if name == "cyan"@ {
        Some("\x1b[36m"@)
    } else if name == "cyan_bright"@ {
        Some("\x1b[36;1m"@)
    } else if name == "white"@ {
        Some("\x1b[37m"@)
    } else if name == "reset"@ {
        Some("\x1b[0m"@)
    } else {
        None
    }
}

/// The text wrapped in the color's code and the reset code; unchanged for
/// an unknown color.
pub open spec fn colored(name: Seq<char>, text: Seq<char>) -> Seq<char> {
    match color_code(name) {
        Some(code) => code + text + "\x1b[0m"@,
        None => text,
    }
}

/// Looks up the escape code of a named color.
pub fn color_lookup(name: &str) -> (r: Option<&'static str>)
    ensures
        r matches Some(c) ==> color_code(name@) == Some(c@),
        r is None ==> color_code(name@) is None,
{
    if str_eq(name, "black") {
        Some("\x1b[30m")
    } else if str_eq(name, "red") {
        Some("\x1b[31m")
    } else if str_eq(name, "red_bright") {
        Some("\x1b[31;1m")
    } else if str_eq(name, "green") {
        Some("\x1b[32m")
    } else if str_eq(name, "green_bright") {
        Some("\x1b[32;1m")
    } else if str_eq(name, "yellow") {
        Some("\x1b[33m")
    } else if str_eq(name, "yellow_bright") {
        Some("\x1b[33;1m")
    } else if str_eq(name, "blue") {
        Some("\x1b[34m")
    } else if str_eq(name, "blue_bright") {
        Some("\x1b[34;1m")
    } else if str_eq(name, "magenta") {
        Some("\x1b[35m")
    } else if str_eq(name, "magenta_bright") {
        Some("\x1b[35;1m")
    } else if str_eq(name, "cyan") {
        Some("\x1b[36m")
    } else if str_eq(name, "cyan_bright") {
        Some("\x1b[36;1m")
    } else if str_eq(name, "white") {
        Some("\x1b[37m")
    } else if str_eq(name, "reset") {
        Some("\x1b[0m")
    } else {
        None
    }
}

/// Applies a named color to the text, followed by the reset code; an
/// unknown color leaves the text as it is.
pub fn apply_color(color: &str, text: &str) -> (r: String)
    ensures
        r@ == colored(color@, text@),
{
    match color_lookup(color) {
        Some(code) => {
            let mut s = String::new();
            s.append(code);
            s.append(text);
            s.append("\x1b[0m");
            s
        },
        None => text.to_owned(),
    }
}

/// Colors for terminal text.
pub trait Colorize {
    /// The text to be colored.
    spec fn text_view(&self) -> Seq<char>;

    /// The text in black.
    fn black(&self) -> (r: String)
        ensures
            r@ == colored("black"@, self.text_view()),
    ;

    /// The text in red.
    fn red(&self) -> (r: String)
        ensures
            r@ == colored("red"@, self.text_view()),
    ;

    /// The text in red bright.
    fn red_bright(&self) -> (r: String)
        ensures
            r@ == colored("red_bright"@, self.text_view()),
    ;

    /// The text in green.
    fn green(&self) -> (r: String)
        ensures
            r@ == colored("green"@, self.text_view()),
    ;

    /// The text in green bright.
    fn green_bright(&self) -> (r: String)
        ensures
            r@ == colored("green_bright"@, self.text_view()),
    ;

    /// The text in yellow.
    fn yellow(&self) -> (r: String)
        ensures
            r@ == colored("yellow"@, self.text_view()),
    ;

    /// The text in yellow bright.
    fn yellow_bright(&self) -> (r: String)
        ensures
            r@ == colored("yellow_bright"@, self.text_view()),
    ;

    /// The text in blue.
    fn blue(&self) -> (r: String)
        ensures
            r@ == colored("blue"@, self.text_view()),
    ;

    /// The text in blue bright.
    fn blue_bright(&self) -> (r: String)
        ensures
            r@ == colored("blue_bright"@, self.text_view()),
    ;

    /// The text in magenta.
    fn magenta(&self) -> (r: String)
        ensures
            r@ == colored("magenta"@, self.text_view()),
    ;

    /// The text in magenta bright.
    fn magenta_bright(&self) -> (r: String)
        ensures
            r@ == colored("magenta_bright"@, self.text_view()),
    ;

    /// The text in cyan.
    fn cyan(&self) -> (r: String)
        ensures
            r@ == colored("cyan"@, self.text_view()),
    ;

    /// The text in cyan bright.
    fn cyan_bright(&self) -> (r: String)
        ensures
            r@ == colored("cyan_bright"@, self.text_view()),
    ;

    /// The text in white.
    fn white(&self) -> (r: String)
        ensures
            r@ == colored("white"@, self.text_view()),
    ;

}

impl Colorize for String {
    open spec fn text_view(&self) -> Seq<char> {
        self@
    }

    fn black(&self) -> String {
        apply_color("black", self.as_str())
    }

    fn red(&self) -> String {
        apply_color("red", self.as_str())
    }

    fn red_bright(&self) -> String {
        apply_color("red_bright", self.as_str())
    }

    fn green(&self) -> String {
        apply_color("green", self.as_str())
    }

    fn green_bright(&self) -> String {
        apply_color("green_bright", self.as_str())
    }

    fn yellow(&self) -> String {
        apply_color("yellow", self.as_str())
    }

    fn yellow_bright(&self) -> String {
        apply_color("yellow_bright", self.as_str())
    }

    fn blue(&self) -> String {
        apply_color("blue", self.as_str())
    }

    fn blue_bright(&self) -> String {
        apply_color("blue_bright", self.as_str())
    }

    fn magenta(&self) -> String {
        apply_color("magenta", self.as_str())
    }

    fn magenta_bright(&self) -> String {
        apply_color("magenta_bright", self.as_str())
    }

    fn cyan(&self) -> String {
        apply_color("cyan", self.as_str())
    }

    fn cyan_bright(&self) -> String {
        apply_color("cyan_bright", self.as_str())
    }

    fn white(&self) -> String {
        apply_color("white", self.as_str())
    }
}

impl<'a> Colorize for &'a str {
    open spec fn text_view(&self) -> Seq<char> {
        (*self)@
    }

    fn black(&self) -> String {
        apply_color("black", *self)
    }

    fn red(&self) -> String {
        apply_color("red", *self)
    }

    fn red_bright(&self) -> String {
        apply_color("red_bright", *self)
    }

    fn green(&self) -> String {
        apply_color("green", *self)
    }

    fn green_bright(&self) -> String {
        apply_color("green_bright", *self)
    }

    fn yellow(&self) -> String {
        apply_color("yellow", *self)
    }

    fn yellow_bright(&self) -> String {
        apply_color("yellow_bright", *self)
    }

    fn blue(&self) -> String {
        apply_color("blue", *self)
    }

    fn blue_bright(&self) -> String {
        apply_color("blue_bright", *self)
    }

    fn magenta(&self) -> String {
        apply_color("magenta", *self)
    }

    fn magenta_bright(&self) -> String {
        apply_color("magenta_bright", *self)
    }

    fn cyan(&self) -> String {
        apply_color("cyan", *self)
    }

    fn cyan_bright(&self) -> String {
        apply_color("cyan_bright", *self)
    }

    fn white(&self) -> String {
        apply_color("white", *self)
    }
}

} // verus!
