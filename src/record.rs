use crate::text::{decimal, decimal_text};
use vstd::prelude::*;
use vstd::string::StringExecFns;

verus! {

/// A user-defined field of a record.
#[derive(Debug, Clone)]
pub struct CustomField {
    pub name: String,
    pub value: String,
    pub hidden: bool,
}

/// A decrypted credential record. Every field is optional: `None` means not set.
#[derive(Debug, Clone, Default)]
pub struct PasswordData {
    pub pin: Option<u32>,
    pub icon: Option<String>,
    pub name: Option<String>,
    pub user: Option<String>,
    pub email: Option<String>,
    pub phone: Option<String>,
    pub password: Option<String>,
    pub otp: Option<String>,
    pub links: Option<Vec<String>>,
    pub notes: Option<String>,
    pub custom: Option<Vec<CustomField>>,
    pub tags: Option<Vec<String>>,
    pub updated: Option<u32>,
    pub archive: Option<bool>,
}

/// One line of a record's detail view: a label, what is shown, what is copied.
#[derive(Debug)]
pub struct DisplayValue {
    pub key: String,
    pub value: String,
    pub copy_value: String,
}

/// A one-time password computed for a record's OTP URI at some instant.
#[derive(Debug)]
pub struct OtpCode {
    pub token: String,
    /// Seconds until the token changes.
    pub remaining: u64,
}

/// Seconds until a one-time password of `step`-second periods changes, at
/// `time` seconds since the epoch; `None` where a code of `digits` digits with that
/// period cannot be generated (a zero period, or more than nine digits).
pub fn otp_window(step: u64, digits: usize, time: u64) -> (r: Option<u64>)
    ensures
        r == (if step != 0 && digits <= 9 {
            Some((step - time % step) as u64)
        } else {
            None::<u64>
        }),
{
    if step == 0 || digits > 9 {
        None
    } else {
        Some(step - time % step)
    }
}

/// A display line as three texts.
pub type Line = (Seq<char>, Seq<char>, Seq<char>);

impl View for DisplayValue {
    type V = Line;

    open spec fn view(&self) -> Line {
        (self.key@, self.value@, self.copy_value@)
    }
}

/// The lines that a sequence of display values shows.
pub open spec fn lines(v: Seq<DisplayValue>) -> Seq<Line> {
    v.map_values(|d: DisplayValue| d@)
}

/// What a secret shows in place of its value.
pub open spec fn mask() -> Seq<char> {
    "******"@
}

/// The label shown when a record has no name.
pub open spec fn untitled() -> Seq<char> {
    "Untitled"@
}

/// The mark appended to a pinned record's label.
pub open spec fn pin_mark() -> Seq<char> {
    " \""@
}

/// The label of a record.
pub open spec fn name_spec(d: PasswordData, show_pin: bool) -> Seq<char> {
    (match d.name {
        Some(n) => n@,
        None => untitled(),
    }) + if d.pin is Some && show_pin {
        pin_mark()
    } else {
        Seq::empty()
    }
}

/// The primary identity: user name, else email, else phone, else empty.
pub open spec fn user_spec(d: PasswordData) -> Seq<char> {
    match d.user {
        Some(u) => u@,
        None => match d.email {
            Some(e) => e@,
            None => match d.phone {
                Some(p) => p@,
                None => Seq::empty(),
            },
        },
    }
}

/// One line whose shown and copied values are the field itself, if it is set.
pub open spec fn plain_line(label: Seq<char>, field: Option<String>) -> Seq<Line> {
    match field {
        Some(v) => seq![(label, v@, v@)],
        None => Seq::empty(),
    }
}

pub open spec fn password_lines(field: Option<String>) -> Seq<Line> {
    match field {
        Some(v) => seq![("Password"@, mask(), v@)],
        None => Seq::empty(),
    }
}

pub open spec fn otp_lines(field: Option<String>, code: Option<OtpCode>) -> Seq<Line> {
    match field {
        None => Seq::empty(),
        Some(_) => match code {
            Some(c) => seq![
                ("One-time password ("@ + decimal(c.remaining as nat) + "s)"@, c.token@, c.token@),
            ],
            None => seq![("One-time password"@, "------"@, ""@)],
        },
    }
}

pub open spec fn link_lines(links: Option<Vec<String>>) -> Seq<Line> {
    match links {
        Some(l) => Seq::new(l@.len(), |i: int| ("Link"@, l@[i]@, l@[i]@)),
        None => Seq::empty(),
    }
}

pub open spec fn custom_line(c: CustomField) -> Line {
    (c.name@, if c.hidden { mask() } else { c.value@ }, c.value@)
}

pub open spec fn custom_lines(custom: Option<Vec<CustomField>>) -> Seq<Line> {
    match custom {
        Some(c) => Seq::new(c@.len(), |i: int| custom_line(c@[i])),
        None => Seq::empty(),
    }
}

/// Texts joined with ", " between them.
pub open spec fn join_spec(parts: Seq<String>) -> Seq<char>
    decreases parts.len(),
{
    if parts.len() == 0 {
        Seq::empty()
    } else if parts.len() == 1 {
        parts[0]@
    } else {
        join_spec(parts.drop_last()) + ", "@ + parts.last()@
    }
}

pub open spec fn tag_lines(tags: Option<Vec<String>>) -> Seq<Line> {
    match tags {
        Some(t) => seq![("Tags"@, join_spec(t@), join_spec(t@))],
        None => Seq::empty(),
    }
}

pub open spec fn updated_lines(updated: Option<u32>, shown: Seq<char>) -> Seq<Line> {
    match updated {
        Some(v) => seq![("Update at"@, shown, decimal(v as nat))],
        None => Seq::empty(),
    }
}

/// A record's detail lines, in their fixed order.
pub open spec fn display_spec(d: PasswordData, code: Option<OtpCode>, updated_shown: Seq<char>) -> Seq<
    Line,
> {
    plain_line("User"@, d.user) + plain_line("Email"@, d.email) + plain_line("Phone"@, d.phone)
        + password_lines(d.password) + otp_lines(d.otp, code) + link_lines(d.links) + plain_line(
        "Notes"@,
        d.notes,
    ) + custom_lines(d.custom) + tag_lines(d.tags) + updated_lines(d.updated, updated_shown)
}

impl DisplayValue {
    pub fn new(key: &str, value: &str, copy_value: &str) -> (r: Self)
        ensures
            r@ == (key@, value@, copy_value@),
    {
        DisplayValue { key: key.to_owned(), value: value.to_owned(), copy_value: copy_value.to_owned() }
    }
}

fn push_line(out: &mut Vec<DisplayValue>, key: &str, value: &str, copy_value: &str)
    ensures
        lines(final(out)@) == lines(old(out)@).push((key@, value@, copy_value@)),
{
    out.push(DisplayValue::new(key, value, copy_value));
    assert(lines(final(out)@) =~= lines(old(out)@).push((key@, value@, copy_value@)));
}

fn push_field(out: &mut Vec<DisplayValue>, label: &str, field: &Option<String>)
    ensures
        lines(final(out)@) == lines(old(out)@) + plain_line(label@, *field),
{
    match field {
        Some(v) => push_line(out, label, v.as_str(), v.as_str()),
        None => {},
    }
    assert(lines(final(out)@) =~= lines(old(out)@) + plain_line(label@, *field));
}

/// Joins texts with ", ".
pub fn join_tags(parts: &Vec<String>) -> (r: String)
    ensures
        r@ == join_spec(parts@),
{
    let mut s = String::new();
    let mut i: usize = 0;
    while i < parts.len()
        invariant
            0 <= i <= parts@.len(),
            s@ == join_spec(parts@.subrange(0, i as int)),
        decreases parts@.len() - i,
    {
        proof {
            assert(parts@.subrange(0, i + 1).drop_last() =~= parts@.subrange(0, i as int));
        }
        if i == 0 {
            s = parts[0].clone();
        } else {
            s = s.concat(", ");
            s = s.concat(parts[i].as_str());
        }
        i = i + 1;
    }
    assert(parts@.subrange(0, parts@.len() as int) =~= parts@);
    s
}

impl PasswordData {
    /// The record's label: its name or a placeholder, marked when pinned and asked to.
    pub fn name(&self, show_pin: bool) -> (r: String)
        ensures
            r@ == name_spec(*self, show_pin),
    {
        let mut val = match &self.name {
            Some(n) => n.clone(),
            None => "Untitled".to_owned(),
        };
        if self.pin.is_some() && show_pin {
            val = val.concat(" \"");
        } else {
            assert(val@ + Seq::<char>::empty() =~= val@);
        }
        val
    }

    /// The primary identity: the first that is set of user name, email and phone.
    pub fn user(&self) -> (r: String)
        ensures
            r@ == user_spec(*self),
    {
        match &self.user {
            Some(u) => u.clone(),
            None => match &self.email {
                Some(e) => e.clone(),
                None => match &self.phone {
                    Some(p) => p.clone(),
                    None => String::new(),
                },
            },
        }
    }

    /// The record's detail lines, given the one-time password computed for its
    /// OTP URI (`None` where the URI does not parse) and the text that shows its
    /// update time.
    pub fn to_display_value(&self, code: Option<OtpCode>, updated_shown: &str) -> (r: Vec<DisplayValue>)
        ensures
            lines(r@) == display_spec(*self, code, updated_shown@),
    {
        let mut values: Vec<DisplayValue> = Vec::new();
        push_field(&mut values, "User", &self.user);
        push_field(&mut values, "Email", &self.email);
        push_field(&mut values, "Phone", &self.phone);
        let ghost before = lines(values@);
        match &self.password {
            Some(v) => push_line(&mut values, "Password", "******", v.as_str()),
            None => {},
        }
        assert(lines(values@) =~= before + password_lines(self.password));
        let ghost before = lines(values@);
        match &self.otp {
            Some(_) => match &code {
                Some(c) => {
                    let label = "One-time password (".to_owned().concat(
                        decimal_text(c.remaining).as_str(),
                    ).concat("s)");
                    push_line(&mut values, label.as_str(), c.token.as_str(), c.token.as_str());
                },
                None => push_line(&mut values, "One-time password", "------", ""),
            },
            None => {},
        }
        assert(lines(values@) =~= before + otp_lines(self.otp, code));
        let ghost before = lines(values@);
        match &self.links {
            Some(links) => {
                let mut i: usize = 0;
                while i < links.len()
                    invariant
                        0 <= i <= links@.len(),
                        lines(values@) == before + Seq::new(
                            i as nat,
                            |j: int| ("Link"@, links@[j]@, links@[j]@),
                        ),
                    decreases links@.len() - i,
                {
                    let ghost prev = lines(values@);
                    push_line(&mut values, "Link", links[i].as_str(), links[i].as_str());
                    i = i + 1;
                    assert(lines(values@) =~= before + Seq::new(
                        i as nat,
                        |j: int| ("Link"@, links@[j]@, links@[j]@),
                    ));
                }
            },
            None => {},
        }
        assert(lines(values@) =~= before + link_lines(self.links));
        push_field(&mut values, "Notes", &self.notes);
        let ghost before = lines(values@);
        match &self.custom {
            Some(custom) => {
                let mut i: usize = 0;
                while i < custom.len()
                    invariant
                        0 <= i <= custom@.len(),
                        lines(values@) == before + Seq::new(
                            i as nat,
                            |j: int| custom_line(custom@[j]),
                        ),
                    decreases custom@.len() - i,
                {
                    let f = &custom[i];
                    if f.hidden {
                        push_line(&mut values, f.name.as_str(), "******", f.value.as_str());
                    } else {
                        push_line(&mut values, f.name.as_str(), f.value.as_str(), f.value.as_str());
                    }
                    i = i + 1;
                    assert(lines(values@) =~= before + Seq::new(
                        i as nat,
                        |j: int| custom_line(custom@[j]),
                    ));
                }
            },
            None => {},
        }
        assert(lines(values@) =~= before + custom_lines(self.custom));
        let ghost before = lines(values@);
        match &self.tags {
            Some(tags) => {
                let joined = join_tags(tags);
                push_line(&mut values, "Tags", joined.as_str(), joined.as_str());
            },
            None => {},
        }
        assert(lines(values@) =~= before + tag_lines(self.tags));
        let ghost before = lines(values@);
        match &self.updated {
            Some(v) => {
                let copied = decimal_text(*v as u64);
                push_line(&mut values, "Update at", updated_shown, copied.as_str());
            },
            None => {},
        }
        assert(lines(values@) =~= before + updated_lines(self.updated, updated_shown@));
        values
    }
}

} // verus!
