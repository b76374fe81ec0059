//! The declarative configuration-file format: a from-address and a transport
//! choice, rendered to text and parsed back.  The text form is two lines —
//! the from-address, then the transport with its argument.

use vstd::prelude::*;
use crate::error::AlertError;
use crate::sender::Sender;
use crate::text::str_eq;
use crate::transport::accepted_email;

verus! {

use vstd::string::StrSliceExecFns;
use vstd::string::StringExecFns;

/// The delivery backend a configuration selects.
#[derive(Debug, PartialEq, Eq)]
pub enum TransportChoice {
    /// The file backend, writing under the given directory.
    File { path: String },
    /// The local sendmail command.
    SendMail,
    /// Unencrypted SMTP to localhost.
    SmtpLocalHost,
    /// TLS SMTP to the given domain.
    SmtpSimple { domain: String },
}

/// The mathematical model of a [`TransportChoice`].
pub enum TransportChoiceModel {
    File { path: Seq<char> },
    SendMail,
    SmtpLocalHost,
    SmtpSimple { domain: Seq<char> },
}

impl View for TransportChoice {
    type V = TransportChoiceModel;

    open spec fn view(&self) -> TransportChoiceModel {
        match self {
            TransportChoice::File { path } => TransportChoiceModel::File { path: path@ },
            TransportChoice::SendMail => TransportChoiceModel::SendMail,
            TransportChoice::SmtpLocalHost => TransportChoiceModel::SmtpLocalHost,
            TransportChoice::SmtpSimple { domain } => TransportChoiceModel::SmtpSimple {
                domain: domain@,
            },
        }
    }
}

/// A sender configuration: a from-address and a transport choice.
#[derive(Debug, PartialEq, Eq)]
pub struct Config {
    /// The from-address to capture in the builder.
    pub from: String,
    /// The backend to finish the builder with.
    pub transport: TransportChoice,
}

/// The mathematical model of a [`Config`].
pub struct ConfigModel {
    pub from: Seq<char>,
    pub transport: TransportChoiceModel,
}

impl View for Config {
    type V = ConfigModel;

    open spec fn view(&self) -> ConfigModel {
        ConfigModel { from: self.from@, transport: self.transport@ }
    }
}

/// Whether a string holds no newline.
pub open spec fn no_newline(s: Seq<char>) -> bool {
    forall|i: int| 0 <= i < s.len() ==> s[i] != '\n'
}

/// The escaped form of one character of the from-line: a backslash doubles,
/// a newline becomes backslash-`n`, anything else stands as itself.
pub open spec fn esc_char(c: char) -> Seq<char> {
    if c == '\\' {
        seq!['\\', '\\']
    } else if c == '\n' {
        seq!['\\', 'n']
    } else {
        seq![c]
    }
}

/// The escaped form of the from-line: newline-free for every string, so the
/// rendered record is splittable at its first newline.
pub open spec fn esc_text(s: Seq<char>) -> Seq<char>
    decreases s.len(),
{
    if s.len() == 0 {
        Seq::empty()
    } else {
        esc_char(s[0]) + esc_text(s.drop_first())
    }
}

/// The inverse of escaping: a backslash pair collapses, backslash-`n`
/// becomes a newline, a lone character stands as itself.
pub open spec fn unesc_text(s: Seq<char>) -> Seq<char>
    decreases s.len(),
{
    if s.len() == 0 {
        Seq::empty()
    } else if s[0] == '\\' && s.len() >= 2 {
        (if s[1] == 'n' {
            seq!['\n']
        } else {
            seq![s[1]]
        }) + unesc_text(s.subrange(2, s.len() as int))
    } else {
        seq![s[0]] + unesc_text(s.drop_first())
    }
}

/// An escaped string holds no newline.
proof fn lemma_esc_no_newline(s: Seq<char>)
    ensures
        no_newline(esc_text(s)),
    decreases s.len(),
{
    if s.len() > 0 {
        lemma_esc_no_newline(s.drop_first());
        let head = esc_char(s[0]);
        let rest = esc_text(s.drop_first());
        assert forall|i: int| 0 <= i < esc_text(s).len() implies esc_text(s)[i] != '\n' by {
            if i < head.len() {
                assert(esc_text(s)[i] == head[i]);
            } else {
                assert(esc_text(s)[i] == rest[i - head.len()]);
            }
        }
    }
}

/// Unescaping inverts escaping on every string.
proof fn lemma_unesc_esc(s: Seq<char>)
    ensures
        unesc_text(esc_text(s)) == s,
    decreases s.len(),
{
    if s.len() == 0 {
        assert(unesc_text(esc_text(s)) =~= s);
    } else {
        lemma_unesc_esc(s.drop_first());
        let e = esc_text(s);
        let rest = esc_text(s.drop_first());
        if s[0] == '\\' {
            assert(e =~= seq!['\\', '\\'] + rest);
            assert(e.subrange(2, e.len() as int) =~= rest);
            assert(unesc_text(e) =~= s);
        } else if s[0] == '\n' {
            assert(e =~= seq!['\\', 'n'] + rest);
            assert(e.subrange(2, e.len() as int) =~= rest);
            assert(unesc_text(e) =~= s);
        } else {
            assert(e =~= seq![s[0]] + rest);
            assert(e.drop_first() =~= rest);
            assert(unesc_text(e) =~= s);
        }
    }
}

/// Escaping one more character extends the escaped text by that character's
/// escaped form.
proof fn lemma_esc_snoc(s: Seq<char>, c: char)
    ensures
        esc_text(s.push(c)) == esc_text(s) + esc_char(c),
    decreases s.len(),
{
    let whole = s.push(c);
    if s.len() == 0 {
        assert(whole[0] == c);
        assert(whole.drop_first() =~= Seq::<char>::empty());
        assert(esc_text(whole) == esc_char(c) + esc_text(whole.drop_first()));
        assert(esc_text(whole.drop_first()) == Seq::<char>::empty());
        assert(esc_text(s) == Seq::<char>::empty());
        assert(esc_text(whole) =~= esc_text(s) + esc_char(c));
    } else {
        assert(whole[0] == s[0]);
        assert(whole.drop_first() =~= s.drop_first().push(c));
        lemma_esc_snoc(s.drop_first(), c);
        assert(esc_text(whole) == esc_char(s[0]) + esc_text(whole.drop_first()));
        assert(esc_text(whole.drop_first()) == esc_text(s.drop_first()) + esc_char(c));
        assert(esc_text(s) == esc_char(s[0]) + esc_text(s.drop_first()));
        assert(esc_char(s[0]) + (esc_text(s.drop_first()) + esc_char(c)) =~= (esc_char(s[0])
            + esc_text(s.drop_first())) + esc_char(c));
        assert(esc_text(whole) =~= esc_text(s) + esc_char(c));
    }
}

/// The escaped from-line of a string.
fn escape_line(s: &str) -> (r: String)
    ensures
        r@ == esc_text(s@),
{
    let n = s.unicode_len();
    let mut out = String::new();
    let mut i: usize = 0;
    while i < n
        invariant
            i <= n,
            n == s@.len(),
            out@ == esc_text(s@.subrange(0, i as int)),
        decreases n - i,
    {
        let c = s.get_char(i);
        if c == '\\' {
            out.append("\\\\");
        } else if c == '\n' {
            out.append("\\n");
        } else {
            out.append(s.substring_char(i, i + 1));
        }
        proof {
            reveal_strlit("\\\\");
            reveal_strlit("\\n");
            lemma_esc_snoc(s@.subrange(0, i as int), s@[i as int]);
            assert(s@.subrange(0, i as int + 1) =~= s@.subrange(0, i as int).push(s@[i as int]));
            assert("\\\\"@ =~= seq!['\\', '\\']);
            assert("\\n"@ =~= seq!['\\', 'n']);
            assert(s@.subrange(i as int, i as int + 1) =~= seq![s@[i as int]]);
            assert(out@ =~= esc_text(s@.subrange(0, i as int + 1)));
        }
        i += 1;
    }
    proof {
        assert(s@.subrange(0, n as int) =~= s@);
    }
    out
}

/// The unescaped reading of a from-line.
fn unescape_line(s: &str) -> (r: String)
    ensures
        r@ == unesc_text(s@),
{
    let n = s.unicode_len();
    let mut out = String::new();
    let mut i: usize = 0;
    proof {
        assert(s@.subrange(0, n as int) =~= s@);
        assert(out@ + unesc_text(s@) =~= unesc_text(s@));
    }
    while i < n
        invariant
            i <= n,
            n == s@.len(),
            unesc_text(s@) == out@ + unesc_text(s@.subrange(i as int, n as int)),
        decreases n - i,
    {
        let ghost suffix = s@.subrange(i as int, n as int);
        let c = s.get_char(i);
        if c == '\\' && i + 1 < n {
            let d = s.get_char(i + 1);
            if d == 'n' {
                out.append("\n");
            } else {
                out.append(s.substring_char(i + 1, i + 2));
            }
            proof {
                reveal_strlit("\n");
                assert("\n"@ =~= seq!['\n']);
                assert(suffix[0] == '\\' && suffix.len() >= 2 && suffix[1] == s@[i as int + 1]);
                assert(suffix.subrange(2, suffix.len() as int) =~= s@.subrange(
                    i as int + 2,
                    n as int,
                ));
                assert(s@.subrange(i as int + 1, i as int + 2) =~= seq![s@[i as int + 1]]);
                assert(unesc_text(s@) == out@ + unesc_text(s@.subrange(i as int + 2, n as int)));
            }
            i += 2;
        } else {
            out.append(s.substring_char(i, i + 1));
            proof {
                assert(suffix[0] == s@[i as int]);
                assert(suffix.drop_first() =~= s@.subrange(i as int + 1, n as int));
                assert(s@.subrange(i as int, i as int + 1) =~= seq![s@[i as int]]);
                assert(unesc_text(s@) == out@ + unesc_text(s@.subrange(i as int + 1, n as int)));
            }
            i += 1;
        }
    }
    proof {
        assert(s@.subrange(n as int, n as int) =~= Seq::<char>::empty());
        assert(out@ + unesc_text(Seq::<char>::empty()) =~= out@);
    }
    out
}

/// The second line of the rendered form: the transport's tag and argument.
pub open spec fn transport_line(t: TransportChoiceModel) -> Seq<char> {
    match t {
        TransportChoiceModel::File { path } => "file "@ + path,
        TransportChoiceModel::SendMail => "sendmail"@,
        TransportChoiceModel::SmtpLocalHost => "smtplocalhost"@,
        TransportChoiceModel::SmtpSimple { domain } => "smtpsimple "@ + domain,
    }
}

/// The rendered text of a configuration: the escaped from-address, a
/// newline, then the transport line.
pub open spec fn render_text(c: ConfigModel) -> Seq<char> {
    esc_text(c.from) + "\n"@ + transport_line(c.transport)
}

/// The index of the first newline of `s`, or `-1` if it has none.
pub open spec fn find_newline(s: Seq<char>) -> int
    decreases s.len(),
{
    if s.len() == 0 {
        -1
    } else if s[0] == '\n' {
        0
    } else if find_newline(s.drop_first()) < 0 {
        -1
    } else {
        find_newline(s.drop_first()) + 1
    }
}

/// The transport a line of text parses to, if any.
pub open spec fn parse_transport(line: Seq<char>) -> Option<TransportChoiceModel> {
    if line == "sendmail"@ {
        Some(TransportChoiceModel::SendMail)
    } else if line == "smtplocalhost"@ {
        Some(TransportChoiceModel::SmtpLocalHost)
    } else if line.len() >= 5 && line.subrange(0, 5) == "file "@ {
        Some(TransportChoiceModel::File { path: line.subrange(5, line.len() as int) })
    } else if line.len() >= 11 && line.subrange(0, 11) == "smtpsimple "@ {
        Some(TransportChoiceModel::SmtpSimple { domain: line.subrange(11, line.len() as int) })
    } else {
        None
    }
}

/// The configuration a text parses to: everything before the first newline
/// is the escaped from-address, everything after it the transport line.
pub open spec fn parse_text(s: Seq<char>) -> Option<ConfigModel> {
    let nl = find_newline(s);
    if nl < 0 {
        None
    } else {
        match parse_transport(s.subrange(nl + 1, s.len() as int)) {
            Some(t) => Some(ConfigModel { from: unesc_text(s.subrange(0, nl)), transport: t }),
            None => None,
        }
    }
}

/// The first newline of `a + "\n" + b` stands right after `a` when `a`
/// itself has none.
proof fn lemma_find_newline_concat(a: Seq<char>, b: Seq<char>)
    requires
        no_newline(a),
    ensures
        find_newline(a + "\n"@ + b) == a.len(),
    decreases a.len(),
{
    reveal_strlit("\n");
    let s = a + "\n"@ + b;
    if a.len() == 0 {
        assert(s[0] == '\n');
    } else {
        assert(s[0] == a[0]);
        assert(s.drop_first() =~= a.drop_first() + "\n"@ + b);
        lemma_find_newline_concat(a.drop_first(), b);
    }
}

/// The round trip law: rendering a configuration and parsing the text back
/// reproduces it exactly, for every configuration.
pub proof fn lemma_config_round_trip(c: ConfigModel)
    ensures
        parse_text(render_text(c)) == Some(c),
{
    reveal_strlit("\n");
    reveal_strlit("file ");
    reveal_strlit("sendmail");
    reveal_strlit("smtplocalhost");
    reveal_strlit("smtpsimple ");
    let line = transport_line(c.transport);
    let s = render_text(c);
    lemma_esc_no_newline(c.from);
    lemma_find_newline_concat(esc_text(c.from), line);
    let nl = find_newline(s);
    assert(nl == esc_text(c.from).len());
    assert(s.subrange(0, nl) =~= esc_text(c.from));
    lemma_unesc_esc(c.from);
    assert(s.subrange(nl + 1, s.len() as int) =~= line);
    match c.transport {
        TransportChoiceModel::File { path } => {
            assert(line[0] == 'f');
            assert("sendmail"@[0] == 's');
            assert("smtplocalhost"@[0] == 's');
            assert(line.subrange(0, 5) =~= "file "@);
            assert(line.subrange(5, line.len() as int) =~= path);
        },
        TransportChoiceModel::SendMail => {
            assert(line == "sendmail"@);
        },
        TransportChoiceModel::SmtpLocalHost => {
            assert("smtplocalhost"@.len() == 13);
            assert("sendmail"@.len() == 8);
            assert(line != "sendmail"@);
        },
        TransportChoiceModel::SmtpSimple { domain } => {
            assert(line[0] == 's' && line[1] == 'm' && line[4] == 's');
            assert("sendmail"@[1] == 'e');
            assert(line != "sendmail"@);
            assert("smtplocalhost"@[4] == 'l');
            assert(line != "smtplocalhost"@);
            if line.len() >= 5 && line.subrange(0, 5) == "file "@ {
                assert(line.subrange(0, 5)[0] == 's');
                assert("file "@[0] == 'f');
                assert(false);
            }
            assert(line.subrange(0, 11) =~= "smtpsimple "@);
            assert(line.subrange(11, line.len() as int) =~= domain);
        },
    }
}

impl Config {
    /// The two-line text form of this configuration: the escaped
    /// from-address, then the transport line.
    pub fn render(&self) -> (r: String)
        ensures
            r@ == render_text(self@),
    {
        let mut out = escape_line(self.from.as_str());
        out.append("\n");
        match &self.transport {
            TransportChoice::File { path } => {
                out.append("file ");
                out.append(path.as_str());
            },
            TransportChoice::SendMail => {
                out.append("sendmail");
            },
            TransportChoice::SmtpLocalHost => {
                out.append("smtplocalhost");
            },
            TransportChoice::SmtpSimple { domain } => {
                out.append("smtpsimple ");
                out.append(domain.as_str());
            },
        }
        proof {
            assert(out@ =~= render_text(self@));
        }
        out
    }

    /// Parses the two-line text form back to a configuration, or `None`
    /// where the text has no newline or its transport line matches no
    /// transport.
    pub fn parse(s: &str) -> (r: Option<Config>)
        ensures
            r matches Some(c) ==> parse_text(s@) == Some(c@),
            r is None ==> parse_text(s@) is None,
    {
        let n = s.unicode_len();
        let mut i: usize = 0;
        while i < n
            invariant
                i <= n,
                n == s@.len(),
                forall|j: int| 0 <= j < i ==> s@[j] != '\n',
            decreases n - i,
        {
            if s.get_char(i) == '\n' {
                proof {
                    lemma_find_newline_at(s@, i as int);
                }
                let from = s.substring_char(0, i);
                let rest = s.substring_char(i + 1, n);
                let rlen = rest.unicode_len();
                let parsed: Option<TransportChoice> = if str_eq(rest, "sendmail") {
                    Some(TransportChoice::SendMail)
                } else if str_eq(rest, "smtplocalhost") {
                    Some(TransportChoice::SmtpLocalHost)
                } else if rlen >= 5 && str_eq(rest.substring_char(0, 5), "file ") {
                    Some(
                        TransportChoice::File {
                            path: rest.substring_char(5, rlen).to_owned(),
                        },
                    )
                } else if rlen >= 11 && str_eq(rest.substring_char(0, 11), "smtpsimple ") {
                    Some(
                        TransportChoice::SmtpSimple {
                            domain: rest.substring_char(11, rlen).to_owned(),
                        },
                    )
                } else {
                    None
                };
                return match parsed {
                    Some(transport) => Some(Config { from: unescape_line(from), transport }),
                    None => None,
                };
            }
            i += 1;
        }
        proof {
            lemma_find_newline_none(s@);
        }
        None
    }

    /// Applies this configuration: captures the from-address in a fresh
    /// builder and finishes it with the configured transport.
    pub fn build(self) -> (r: Result<Sender, AlertError>)
        ensures
            r is Ok ==> accepted_email(self.from@),
            !accepted_email(self.from@) ==> (r matches Err(e) && (e is MissingEmail || e
                is LettreSmtp)),
            accepted_email(self.from@) && (self.transport is File || self.transport
                is SendMail) ==> r is Ok,
            accepted_email(self.from@) && (self.transport is SmtpLocalHost || self.transport
                is SmtpSimple) ==> (r is Ok || (r matches Err(e) && e is LettreSmtp)),
            accepted_email(self.from@) ==> !(r matches Err(e) && e is MissingEmail),
    {
        let b = Sender::builder().address(self.from.as_str());
        match self.transport {
            TransportChoice::File { path } => b.file(path.as_str()),
            TransportChoice::SendMail => b.sendmail(),
            TransportChoice::SmtpLocalHost => b.smtp_unencrypted_localhost(),
            TransportChoice::SmtpSimple { domain } => b.smtp_simple(domain.as_str()),
        }
    }
}

/// `find_newline` finds exactly the first newline.
proof fn lemma_find_newline_at(s: Seq<char>, i: int)
    requires
        0 <= i < s.len(),
        s[i] == '\n',
        forall|j: int| 0 <= j < i ==> s[j] != '\n',
    ensures
        find_newline(s) == i,
    decreases i,
{
    if i > 0 {
        lemma_find_newline_at(s.drop_first(), i - 1);
    }
}

/// On a string without newlines, `find_newline` reports none.
proof fn lemma_find_newline_none(s: Seq<char>)
    requires
        no_newline(s),
    ensures
        find_newline(s) == -1,
    decreases s.len(),
{
    if s.len() > 0 {
        lemma_find_newline_none(s.drop_first());
    }
}

} // verus!
