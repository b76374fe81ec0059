//! A delivery sink for demos: it renders an email as a human-readable text
//! dump.  A front end can wire the rendered text to standard output to
//! "send" messages to the terminal.

use vstd::prelude::*;

verus! {

use vstd::string::StringExecFns;

/// The `To:` section's body: each recipient address followed by a newline.
pub open spec fn to_lines(to: Seq<Seq<char>>) -> Seq<char>
    decreases to.len(),
{
    if to.len() == 0 {
        Seq::empty()
    } else {
        to.first() + "\n"@ + to_lines(to.drop_first())
    }
}

/// The full text dump of an email: its message id, envelope and body, with
/// `no-one` standing in for a missing sender or empty recipient list.
pub open spec fn echo_text(
    message_id: Seq<char>,
    from: Option<Seq<char>>,
    to: Seq<Seq<char>>,
    body: Seq<char>,
) -> Seq<char> {
    "Message: "@ + message_id + "\n"@ + "-----------\n"@ + (match from {
        Some(f) => "From: "@ + f,
        None => "From: no-one"@,
    }) + "\n"@ + (if to.len() == 0 {
        "To: no-one"@
    } else {
        "To: "@ + to_lines(to)
    }) + "-----------\nMessage\n----------\n"@ + body
}

/// Renders emails as text dumps instead of delivering them.
pub struct EchoTransport;

impl EchoTransport {
    /// The text dump of one email: message id, envelope and body.
    pub fn render(&self, message_id: &str, from: Option<&str>, to: &Vec<String>, body: &str) -> (r:
        String)
        ensures
            r@ == echo_text(
                message_id@,
                match from {
                    Some(f) => Some(f@),
                    None => None,
                },
                to.deep_view(),
                body@,
            ),
    {
        let mut out = String::from_str("Message: ");
        out.append(message_id);
        out.append("\n");
        out.append("-----------\n");
        match from {
            Some(f) => {
                out.append("From: ");
                out.append(f);
            },
            None => {
                out.append("From: no-one");
            },
        }
        out.append("\n");
        if to.len() == 0 {
            out.append("To: no-one");
        } else {
            out.append("To: ");
            let ghost head = out@;
            let mut i: usize = 0;
            while i < to.len()
                invariant
                    i <= to@.len(),
                    out@ == head + to_lines(to.deep_view().take(i as int)),
                decreases to@.len() - i,
            {
                out.append(to[i].as_str());
                out.append("\n");
                proof {
                    let views = to.deep_view();
                    lemma_to_lines_snoc(views.take(i as int), views[i as int]);
                    assert(views.take(i + 1 as int).drop_last() =~= views.take(i as int));
                    assert(views.take(i + 1 as int) =~= views.take(i as int).push(
                        views[i as int],
                    ));
                }
                i += 1;
            }
            proof {
                assert(to.deep_view().take(to@.len() as int) =~= to.deep_view());
            }
        }
        out.append("-----------\nMessage\n----------\n");
        out.append(body);
        out
    }
}

/// Appending one recipient extends the `To:` lines by that address and a
/// newline.
proof fn lemma_to_lines_snoc(to: Seq<Seq<char>>, last: Seq<char>)
    ensures
        to_lines(to.push(last)) == to_lines(to) + last + "\n"@,
    decreases to.len(),
{
    let whole = to.push(last);
    if to.len() == 0 {
        assert(whole.first() == last);
        assert(whole.drop_first() =~= Seq::<Seq<char>>::empty());
        assert(to_lines(whole) =~= to_lines(to) + last + "\n"@);
    } else {
        assert(whole.first() == to.first());
        assert(whole.drop_first() =~= to.drop_first().push(last));
        lemma_to_lines_snoc(to.drop_first(), last);
        assert(to_lines(whole) == whole.first() + "\n"@ + to_lines(whole.drop_first()));
        assert(to_lines(whole.drop_first()) == to_lines(to.drop_first()) + last + "\n"@);
        assert(to_lines(to) == to.first() + "\n"@ + to_lines(to.drop_first()));
        assert(to_lines(whole) =~= to_lines(to) + last + "\n"@);
    }
}

} // verus!
