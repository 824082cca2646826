use vstd::prelude::*;

verus! {

/// The type of a metric family in the exposition format.
#[derive(Debug, Clone, Copy, PartialEq, Eq, Structural)]
pub enum OpenMetricKind {
    Counter,
    Gauge,
}

/// The character for a decimal digit.
pub open spec fn digit_char(d: nat) -> char {
    if d == 0 { '0' }
    else if d == 1 { '1' }
    else if d == 2 { '2' }
    else if d == 3 { '3' }
    else if d == 4 { '4' }
    else if d == 5 { '5' }
    else if d == 6 { '6' }
    else if d == 7 { '7' }
    else if d == 8 { '8' }
    else { '9' }
}

/// The decimal notation of `n`, without leading zeros.
pub open spec fn decimal(n: nat) -> Seq<char>
    decreases n,
{
    if n < 10 {
        seq![digit_char(n)]
    } else {
        decimal(n / 10).push(digit_char(n % 10))
    }
}

impl OpenMetricKind {
    pub open spec fn text(self) -> Seq<char> {
        match self {
            OpenMetricKind::Counter => seq!['c', 'o', 'u', 'n', 't', 'e', 'r'],
            OpenMetricKind::Gauge => seq!['g', 'a', 'u', 'g', 'e'],
        }
    }

    /// The name of the kind as written after `# TYPE`.
    pub fn as_str(&self) -> (r: &'static str)
        ensures
            r@ == self.text(),
    {
        match self {
            OpenMetricKind::Counter => {
                proof { reveal_strlit("counter"); }
                "counter"
            },
            OpenMetricKind::Gauge => {
                proof { reveal_strlit("gauge"); }
                "gauge"
            },
        }
    }
}

fn digit_str(d: u8) -> (r: &'static str)
    requires
        d < 10,
    ensures
        r@ == seq![digit_char(d as nat)],
{
    proof {
        reveal_strlit("0"); reveal_strlit("1"); reveal_strlit("2"); reveal_strlit("3");
        reveal_strlit("4"); reveal_strlit("5"); reveal_strlit("6"); reveal_strlit("7");
        reveal_strlit("8"); reveal_strlit("9");
    }
    if d == 0 { "0" }
    else if d == 1 { "1" }
    else if d == 2 { "2" }
    else if d == 3 { "3" }
    else if d == 4 { "4" }
    else if d == 5 { "5" }
    else if d == 6 { "6" }
    else if d == 7 { "7" }
    else if d == 8 { "8" }
    else { "9" }
}

/// Appends the decimal notation of `n` to `out`.
pub fn push_decimal(out: &mut String, n: u128)
    ensures
        final(out)@ == old(out)@ + decimal(n as nat),
    decreases n,
{
    if n >= 10 {
        push_decimal(out, n / 10);
    }
    let d = (n % 10) as u8;
    out.append(digit_str(d));
    proof {
        if n >= 10 {
            assert(old(out)@ + decimal(n as nat) =~= old(out)@ + decimal((n / 10) as nat) + seq![digit_char((n % 10) as nat)]);
        }
    }
}

/// One metric family with a single sample, as written in the text
/// exposition format. The sample timestamp is kept in seconds and written in
/// milliseconds.
#[derive(Debug)]
pub struct OpenMetric<'a> {
    pub kind: OpenMetricKind,
    pub name: &'a str,
    pub help: Option<&'a str>,
    pub unit: Option<&'a str>,
    pub timestamp: Option<u64>,
    pub value: u64,
}

/// `# <tag> <name> <text>` and a line break.
pub open spec fn annotation(tag: Seq<char>, name: Seq<char>, text: Seq<char>) -> Seq<char> {
    "# "@ + tag + " "@ + name + " "@ + text + "\n"@
}

pub open spec fn optional_annotation(tag: Seq<char>, name: Seq<char>, text: Option<&str>) -> Seq<char> {
    match text {
        Some(t) => annotation(tag, name, t@),
        None => Seq::empty(),
    }
}

/// The sample line: name, value and, if present, the timestamp in milliseconds.
pub open spec fn sample_line(name: Seq<char>, value: u64, timestamp: Option<u64>) -> Seq<char> {
    match timestamp {
        Some(ts) => name + " "@ + decimal(value as nat) + " "@ + decimal((ts * 1000) as nat) + "\n"@,
        None => name + " "@ + decimal(value as nat) + "\n"@,
    }
}

impl<'a> OpenMetric<'a> {
    /// The full text of this metric family.
    pub open spec fn text(self) -> Seq<char> {
        annotation("TYPE"@, self.name@, self.kind.text())
            + optional_annotation("UNIT"@, self.name@, self.unit)
            + optional_annotation("HELP"@, self.name@, self.help)
            + sample_line(self.name@, self.value, self.timestamp)
    }

    pub fn new(kind: OpenMetricKind, name: &'a str) -> (r: OpenMetric<'a>)
        ensures
            r.kind == kind,
            r.name == name,
            r.help is None,
            r.unit is None,
            r.timestamp is None,
            r.value == 0,
    {
        OpenMetric { kind, name, help: None, unit: None, timestamp: None, value: 0 }
    }

    pub fn unit(self, unit: &'a str) -> (r: OpenMetric<'a>)
        ensures
            r == (OpenMetric { unit: Some(unit), ..self }),
    {
        OpenMetric { unit: Some(unit), ..self }
    }

    pub fn help(self, help: &'a str) -> (r: OpenMetric<'a>)
        ensures
            r == (OpenMetric { help: Some(help), ..self }),
    {
        OpenMetric { help: Some(help), ..self }
    }

    /// Sets the sample timestamp, in seconds since the epoch.
    pub fn timestamp(self, timestamp: u64) -> (r: OpenMetric<'a>)
        ensures
            r == (OpenMetric { timestamp: Some(timestamp), ..self }),
    {
        OpenMetric { timestamp: Some(timestamp), ..self }
    }

    pub fn value(self, value: u64) -> (r: OpenMetric<'a>)
        ensures
            r == (OpenMetric { value, ..self }),
    {
        OpenMetric { value, ..self }
    }

    fn render_annotation(out: &mut String, tag: &str, name: &str, text: &str)
        ensures
            final(out)@ == old(out)@ + annotation(tag@, name@, text@),
    {
        out.append("# ");
        out.append(tag);
        out.append(" ");
        out.append(name);
        out.append(" ");
        out.append(text);
        out.append("\n");
        assert(final(out)@ =~= old(out)@ + annotation(tag@, name@, text@));
    }

    fn render_sample(out: &mut String, name: &str, value: u64, timestamp: Option<u64>)
        ensures
            final(out)@ == old(out)@ + sample_line(name@, value, timestamp),
    {
        let ghost start = out@;
        out.append(name);
        out.append(" ");
        push_decimal(out, value as u128);
        let ghost after_value = out@;
        if let Some(ts) = timestamp {
            out.append(" ");
            push_decimal(out, ts as u128 * 1000);
        }
        out.append("\n");
        match timestamp {
            Some(ts) => {
                assert(out@ =~= start + sample_line(name@, value, timestamp));
            },
            None => {
                assert(out@ =~= start + sample_line(name@, value, timestamp));
            },
        }
    }

    /// Appends the text of this metric family to `out`.
    pub fn render(self, out: &mut String)
        ensures
            final(out)@ == old(out)@ + self.text(),
    {
        let ghost start = out@;
        Self::render_annotation(out, "TYPE", self.name, self.kind.as_str());
        let ghost after_type = out@;
        if let Some(unit) = self.unit {
            Self::render_annotation(out, "UNIT", self.name, unit);
        }
        assert(out@ =~= after_type + optional_annotation("UNIT"@, self.name@, self.unit));
        let ghost after_unit = out@;
        if let Some(help) = self.help {
            Self::render_annotation(out, "HELP", self.name, help);
        }
        assert(out@ =~= after_unit + optional_annotation("HELP"@, self.name@, self.help));
        let ghost after_help = out@;
        Self::render_sample(out, self.name, self.value, self.timestamp);
        assert(out@ =~= start + self.text());
    }
}

} // verus!
