//! The static response pages: an index page that links to the toggle
//! route, a confirmation page for a committed toggle, and an error page
//! for a toggle that hit a hardware fault.

use vstd::prelude::*;

verus! {

/// The text of the index page.
pub open spec fn index_page() -> Seq<char> {
    r#"
<!DOCTYPE html>
<html>
    <head>
        <meta charset="utf-8">
        <title>Esp32 Web Server</title>
    </head>
    <body style="text-align: center;">
    <h1>Welcome to the ESP32 Web Server!</h1>
    <br/>
    <h1>Control the LED</h1>
    <h2>Go to <a href="/change">/change</a> to toggle the LED.</h2>
    </body>
</html>
"#@
}

/// The text of the toggle confirmation page.
pub open spec fn change_page() -> Seq<char> {
    r#"
<!DOCTYPE html>
<html>
    <head>
        <meta charset="utf-8">
        <title>Esp32 Web Server</title>
    </head>
    <body style="text-align: center;">
    <h1 style="font-size: 32px">LED toggled!</h1>
    <h1>To toggle again, press the button.</h1>
    <br/>
    <button onclick="location.href='/change'" style="padding: 10px 20px; font-size: 32px;">Toggle</button>
    </body>
</html>
"#@
}

/// The text of the hardware fault page.
pub open spec fn fault_page() -> Seq<char> {
    r#"
<!DOCTYPE html>
<html>
    <head>
        <meta charset="utf-8">
        <title>Esp32 Web Server</title>
    </head>
    <body style="text-align: center;">
    <h1>Hardware fault</h1>
    <h2>The LED output could not be toggled; its state is unchanged.</h2>
    </body>
</html>
"#@
}

/// The index page, served for the root route.
pub fn index_html() -> (r: &'static str)
    ensures
        r@ == index_page(),
{
    r#"
<!DOCTYPE html>
<html>
    <head>
        <meta charset="utf-8">
        <title>Esp32 Web Server</title>
    </head>
    <body style="text-align: center;">
    <h1>Welcome to the ESP32 Web Server!</h1>
    <br/>
    <h1>Control the LED</h1>
    <h2>Go to <a href="/change">/change</a> to toggle the LED.</h2>
    </body>
</html>
"#
}

/// The confirmation page, served when a toggle was committed.
pub fn change_html() -> (r: &'static str)
    ensures
        r@ == change_page(),
{
    r#"
<!DOCTYPE html>
<html>
    <head>
        <meta charset="utf-8">
        <title>Esp32 Web Server</title>
    </head>
    <body style="text-align: center;">
    <h1 style="font-size: 32px">LED toggled!</h1>
    <h1>To toggle again, press the button.</h1>
    <br/>
    <button onclick="location.href='/change'" style="padding: 10px 20px; font-size: 32px;">Toggle</button>
    </body>
</html>
"#
}

/// The error page, served when the toggle hit a hardware fault.
pub fn fault_html() -> (r: &'static str)
    ensures
        r@ == fault_page(),
{
    r#"
<!DOCTYPE html>
<html>
    <head>
        <meta charset="utf-8">
        <title>Esp32 Web Server</title>
    </head>
    <body style="text-align: center;">
    <h1>Hardware fault</h1>
    <h2>The LED output could not be toggled; its state is unchanged.</h2>
    </body>
</html>
"#
}

} // verus!
