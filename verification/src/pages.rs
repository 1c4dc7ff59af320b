//! The HTML layer: the shared page layout, the navigation components it
//! injects, and the pages this subsystem serves directly.
//!
//! Rendering is a plain function from body markup to the full page's
//! text, so every page is the layout's fixed chrome around its body.

use vstd::prelude::*;

verus! {

/// Everything before the top navigation: doctype, head and the opening of
/// the body.
pub const LAYOUT_HEAD: &'static str = "<!DOCTYPE html><html><head><meta charset=\"UTF-8\"><meta name=\"viewport\" content=\"width=device-width, initial-scale=1.0\"><meta name=\"darkreader-lock\"><link rel=\"icon\" href=\"/static/img/favicon.svg\"><title>Div176</title><script src=\"https://cdn.tailwindcss.com/3.4.15\"></script><script src=\"https://cdn.jsdelivr.net/npm/htmx.org@2.0.6/dist/htmx.min.js\"></script><script>tailwind.config = {\"theme\":{\"screens\":{\"mobile\":{\"max\":\"639px\"},\"desktop\":{\"min\":\"640px\"}},\"colors\":{\"green\":{\"light\":\"#63C658\",\"DEFAULT\":\"#3F9C35\",\"dark\":\"#327A2A\"},\"yellow\":\"#CC9200\",\"red\":\"#D52B1E\",\"white\":{\"DEFAULT\":\"#F1FAF0\",\"true\":\"#FFFFFF\"},\"black\":{\"DEFAULT\":\"#252525\",\"true\":\"#000000\"},\"neutral\":\"#a3a3a3\"}}}</script></head><body class=\"flex flex-col h-screen bg-white\">";

/// The top navigation bar: site header, sticky nav and its scroll script.
pub const TOP_NAV: &'static str = "<header class=\"mobile:hidden bg-green w-full\"><div class=\"desktop:px-1 flex h-full max-w-6xl mx-auto h-24\"><img class=\"h-20 p-1 ml-3\" src=\"/static/img/logo.svg\"><div class=\"pt-3 text-white\"><h1 class=\"desktop:text-4xl mobile:text-2xl font-medium\">St. John Ambulance</h1><p class=\"text-[12px]\">BC &amp; Yukon Council, BGen David Coell Division 176, Victoria</p></div></div></header><nav class=\"z-50 bg-white shadow-[0px_5px_10px_2px_rgba(0,0,0,0.3)] sticky top-0\"><div class=\"mobile:hidden text-white bg-[linear-gradient(180deg,rgb(44,44,44)0%,rgb(44,44,44)50%,rgb(0,0,0)50%,rgb(0,0,0)100%)]\"><div class=\"flex justify-between mx-auto max-w-6xl\"><div class=\"flex mx-auto w-full\"><a href=\"/\" class=\"flex items-center justify-center\"><img id=\"navlogo\" class=\"h-5 -translate-y-px pl-2 pr-1\" src=\"/static/img/logo.svg\"><p class=\"my-auto pr-3 font-semibold\">Div176</p></a><div class=\"flex text-white space-x-0.5 *:px-3 *:py-1 *:my-auto hover:*:bg-green\"><a href=\"#events\" class=\"bg-green\">Events</a><a href=\"#hours\" class=\"\">Hours</a><a href=\"#volunteers\" class=\"\">Volunteers</a></div></div><div class=\"flex text-white space-x-0.5 *:px-3 *:py-1 *:my-auto hover:*:bg-green\"><a href=\"/user\" class=\"\">Account</a></div></div></div></nav><script>document.addEventListener('scroll', function() { const nav = document.querySelector('nav'); const navLogo = document.getElementById('navlogo'); if (nav) { const navPosition = nav.getBoundingClientRect(); navLogo.style.visibility = navPosition.top <= 0 ? 'visible' : 'hidden'; } }); document.addEventListener('DOMContentLoaded', function() { const navLogo = document.getElementById('navlogo'); if (navLogo) { navLogo.style.visibility = 'hidden'; } });</script>";

/// The bottom navigation bar shown on small screens.
pub const BOTTOM_NAV: &'static str = "<nav class=\"desktop:hidden z-50 h-16 px-1 bg-white shadow-[0px_5px_10px_2px_rgba(0,0,0,0.4)] rounded-t-xl grid grid-cols-4 text-sm space-x-0.5 text-neutral *:text-center *:content-center hover:*:text-green hover:*:fill-green *:transition-all *:duration-200 *:flex *:flex-col *:justify-center *:items-center *:space-y-0.5 fill-neutral\"><a href=\"#\" class=\"fill-green text-green font-medium\"><p>Home</p></a><a href=\"#\" class=\"\"><p>Events</p></a><a href=\"#\" class=\"\"><p>Hours</p></a><a href=\"#\" class=\"\"><p>Account</p></a></nav>";

/// The opening of the main content region.
pub const MAIN_OPEN: &'static str = "<main class=\"mobile:overflow-scroll text-black py-4 mobile:px-5 desktop:px-8 max-w-6xl w-full mx-auto\">";

/// The close of the main region and of the page.
pub const LAYOUT_TAIL: &'static str = "</main>";

/// The close of the body once both navigations are in place.
pub const PAGE_CLOSE: &'static str = "</body></html>";

/// What [`Layout`] renders around a body.
pub open spec fn layout_markup(inner: Seq<char>) -> Seq<char> {
    LAYOUT_HEAD@ + TOP_NAV@ + MAIN_OPEN@ + inner + LAYOUT_TAIL@ + BOTTOM_NAV@ + PAGE_CLOSE@
}

/// The top navigation component.
#[allow(non_snake_case)]
pub fn TopNav() -> (r: String)
    ensures
        r@ == TOP_NAV@,
{
    String::from_str(TOP_NAV)
}

/// The bottom navigation component.
#[allow(non_snake_case)]
pub fn BottomNav() -> (r: String)
    ensures
        r@ == BOTTOM_NAV@,
{
    String::from_str(BOTTOM_NAV)
}

/// Wraps arbitrary body markup in the site chrome: head, top navigation,
/// the main region holding the body, and the bottom navigation.
#[allow(non_snake_case)]
pub fn Layout(inner: &str) -> (r: String)
    ensures
        r@ == layout_markup(inner@),
{
    let mut page = String::from_str(LAYOUT_HEAD);
    let top = TopNav();
    page.append(top.as_str());
    page.append(MAIN_OPEN);
    page.append(inner);
    page.append(LAYOUT_TAIL);
    let bottom = BottomNav();
    page.append(bottom.as_str());
    page.append(PAGE_CLOSE);
    proof {
        assert(page@ =~= layout_markup(inner@));
    }
    page
}

/// The body of the login page: the login form beside the visitor
/// information column.
pub const LOGIN_BODY: &'static str = "<main class=\"desktop:flex py-4 mobile:px-5 desktop:px-8 max-w-6xl w-full mx-auto desktop:space-x-12 bg-white\"><h1 class=\"desktop:hidden text-xl font-medium text-center mb-4\">Division 176 (Victoria)</h1><div id=\"login\" class=\"flex-none desktop:w-64 mobile:w-full\"><h2 class=\"text-white text-center font-medium p-2 bg-green-light rounded-t-lg\">Volunteer Login</h2><form hx-post=\"/login\" class=\"p-4 rounded-b-lg space-y-4 border border-green-light\"><label for=\"Username\" class=\"relative block py-1 pl-3 border border-neutral rounded shadow-sm focus-within:border-green focus-within:ring-1 focus-within:ring-green\"><input type=\"text\" id=\"Username\" name=\"username\" class=\"peer border-none bg-white placeholder-transparent focus:border-transparent focus:outline-none focus:ring-0 placeholder:opacity-0\" placeholder=\"Username\"><span class=\"pointer-events-none absolute start-2.5 top-0 -translate-y-1/2 bg-white p-0.5 text-xs text-neutral transition-all peer-focus:text-black peer-placeholder-shown:top-1/2 peer-placeholder-shown:text-sm peer-focus:top-0 peer-focus:text-xs\">Username</span></label><label for=\"Password\" class=\"relative block py-1 pl-3 border border-neutral rounded shadow-sm focus-within:border-green focus-within:ring-1 focus-within:ring-green\"><input type=\"password\" id=\"Password\" name=\"password\" class=\"peer border-none bg-white placeholder-transparent focus:border-transparent focus:outline-none focus:ring-0 placeholder:opacity-0\" placeholder=\"Password\"><span class=\"pointer-events-none absolute start-2.5 top-0 -translate-y-1/2 bg-white p-0.5 text-xs text-neutral peer-focus:text-black transition-all peer-placeholder-shown:top-1/2 peer-placeholder-shown:text-sm peer-focus:top-0 peer-focus:text-xs\">Password</span></label><div><input class=\"bg-green text-white px-2 py-0.5 shadow-sm rounded hover:bg-green-light cursor-pointer\" type=\"submit\" value=\"Login\"></div></form></div><div><h1 class=\"mobile:hidden text-xl font-medium text-center\">St. John Ambulance - Division 176 (Victoria)</h1><div class=\"space-y-2 mt-4\"><h2 class=\"font-medium\">Need First Aid Coverage for Your Event?</h2><p>For information on the status of your event request and general inquiries, please <a class=\"text-green font-medium\" href=\"https://www.cognitoforms.com/StJohnAmbulanceVictoriaBrigade/StJohnAmbulanceVictoriaGeneralInquiryToCommunityServices\">send us a message</a>.</p><p>To submit a request for first aid coverage for your event, please fill out a <a class=\"text-green font-medium\" href=\"https://www.cognitoforms.com/StJohnAmbulanceVictoriaBrigade/RequestFirstAidCoverageForYourEvent\">Request Form</a>.</p></div><div class=\"space-y-2 mt-4\"><h2 class=\"font-medium\">Want to Volunteer with us?</h2><p>We are excited to hear from you! If you want to volunteer with us please fill out an <a class=\"text-green font-medium\" href=\"https://www.cognitoforms.com/StJohnAmbulanceVictoriaBrigade/StJohnAmbulanceVictoriaBCVolunteerApplication\">Application Form</a>.</p><p>For further recruiting inquiries please <a class=\"text-green font-medium\" href=\"https://www.cognitoforms.com/StJohnAmbulanceVictoriaBrigade/StJohnAmbulanceVictoriaBrigadeGeneralInquiryToRecruitment\">send us a message</a>.</p></div></div></main>";

/// The login page: the layout around [`LOGIN_BODY`].
pub fn login_page() -> (r: String)
    ensures
        r@ == layout_markup(LOGIN_BODY@),
{
    Layout(LOGIN_BODY)
}

/// The body of the page served when no route matches.
pub const NOT_FOUND_BODY: &'static str = "<div class=\"items-center px-2 text-center mt-8\"><h1 class=\"text-8xl font-extrabold text-red\">404</h1><h1 class=\"text-4xl font-extrabold text-red\">Page Not Found</h1><p class=\"text-xl mt-4\">Oops. It seems like the page you're looking for does not exist</p><p class=\"mt-2\">(Have you checked the back of Dussault's Jeep?)</p></div>";

/// The fallback for unmatched routes: a 404 status and its page.
pub fn fallback_404() -> (r: (u16, String))
    ensures
        r.0 == 404,
        r.1@ == layout_markup(NOT_FOUND_BODY@),
{
    (404, Layout(NOT_FOUND_BODY))
}

} // verus!
