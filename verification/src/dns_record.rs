//! DNS records as the Cloudflare screen edits them: the record types, the
//! inputs that each type needs, and the payload that they make.
use vstd::prelude::*;

use crate::event::KeyCode;
use crate::model::Copyable;
use crate::text;
use crate::widgets::{Input, InputModel};

verus! {

/// A record as it was fetched.
pub struct DnsRecord {
    pub id: String,
    pub zone_id: String,
    pub account_label: String,
    pub domain: String,
    pub subdomain: String,
    pub type_: String,
    pub value: String,
    pub ttl: i64,
    pub proxied: bool,
    pub priority: Option<i64>,
    pub weight: Option<i64>,
    pub port: Option<i64>,
    pub flags: Option<i64>,
    pub tag: Option<String>,
}

pub struct DnsRecordModel {
    pub id: Seq<char>,
    pub zone_id: Seq<char>,
    pub account_label: Seq<char>,
    pub domain: Seq<char>,
    pub subdomain: Seq<char>,
    pub type_: Seq<char>,
    pub value: Seq<char>,
    pub ttl: i64,
    pub proxied: bool,
    pub priority: Option<i64>,
    pub weight: Option<i64>,
    pub port: Option<i64>,
    pub flags: Option<i64>,
    pub tag: Option<Seq<char>>,
}

impl View for DnsRecord {
    type V = DnsRecordModel;

    open spec fn view(&self) -> DnsRecordModel {
        DnsRecordModel {
            id: self.id@,
            zone_id: self.zone_id@,
            account_label: self.account_label@,
            domain: self.domain@,
            subdomain: self.subdomain@,
            type_: self.type_@,
            value: self.value@,
            ttl: self.ttl,
            proxied: self.proxied,
            priority: self.priority,
            weight: self.weight,
            port: self.port,
            flags: self.flags,
            tag: self.tag.deep_view(),
        }
    }
}

impl DeepView for DnsRecord {
    type V = DnsRecordModel;

    open spec fn deep_view(&self) -> DnsRecordModel {
        self@
    }
}

impl Copyable for DnsRecord {
    fn copy(&self) -> (r: Self) {
        DnsRecord {
            id: self.id.clone(),
            zone_id: self.zone_id.clone(),
            account_label: self.account_label.clone(),
            domain: self.domain.clone(),
            subdomain: self.subdomain.clone(),
            type_: self.type_.clone(),
            value: self.value.clone(),
            ttl: self.ttl,
            proxied: self.proxied,
            priority: self.priority,
            weight: self.weight,
            port: self.port,
            flags: self.flags,
            tag: self.tag.copy(),
        }
    }
}

/// A record that is to be created or to take the place of another.
pub struct DnsRecordInput {
    pub type_: String,
    pub subdomain: String,
    pub value: String,
    pub ttl: i64,
    pub proxied: bool,
    pub priority: Option<i64>,
    pub weight: Option<i64>,
    pub port: Option<i64>,
    pub flags: Option<i64>,
    pub tag: Option<String>,
}

pub struct DnsRecordInputModel {
    pub type_: Seq<char>,
    pub subdomain: Seq<char>,
    pub value: Seq<char>,
    pub ttl: i64,
    pub proxied: bool,
    pub priority: Option<i64>,
    pub weight: Option<i64>,
    pub port: Option<i64>,
    pub flags: Option<i64>,
    pub tag: Option<Seq<char>>,
}

impl View for DnsRecordInput {
    type V = DnsRecordInputModel;

    open spec fn view(&self) -> DnsRecordInputModel {
        DnsRecordInputModel {
            type_: self.type_@,
            subdomain: self.subdomain@,
            value: self.value@,
            ttl: self.ttl,
            proxied: self.proxied,
            priority: self.priority,
            weight: self.weight,
            port: self.port,
            flags: self.flags,
            tag: self.tag.deep_view(),
        }
    }
}

impl DeepView for DnsRecordInput {
    type V = DnsRecordInputModel;

    open spec fn deep_view(&self) -> DnsRecordInputModel {
        self@
    }
}

impl Copyable for DnsRecordInput {
    fn copy(&self) -> (r: Self) {
        DnsRecordInput {
            type_: self.type_.clone(),
            subdomain: self.subdomain.clone(),
            value: self.value.clone(),
            ttl: self.ttl,
            proxied: self.proxied,
            priority: self.priority,
            weight: self.weight,
            port: self.port,
            flags: self.flags,
            tag: self.tag.copy(),
        }
    }
}

/// A zone of an account.
pub struct Zone {
    pub id: String,
    pub name: String,
}

pub struct ZoneModel {
    pub id: Seq<char>,
    pub name: Seq<char>,
}

impl View for Zone {
    type V = ZoneModel;

    open spec fn view(&self) -> ZoneModel {
        ZoneModel {
            id: self.id@,
            name: self.name@,
        }
    }
}

impl DeepView for Zone {
    type V = ZoneModel;

    open spec fn deep_view(&self) -> ZoneModel {
        self@
    }
}

impl Copyable for Zone {
    fn copy(&self) -> (r: Self) {
        Zone {
            id: self.id.clone(),
            name: self.name.clone(),
        }
    }
}

/// The types of records that can be made, in the order they are cycled through.
#[derive(Clone, Copy, PartialEq, Eq, Structural, Debug)]
pub enum RecordType {
    A,
    Aaaa,
    Cname,
    Mx,
    Txt,
    Ns,
    Srv,
    Caa,
}

/// The tags of a CAA record.
#[derive(Clone, Copy, PartialEq, Eq, Structural, Debug)]
pub enum CaaTag {
    Issue,
    IssueWild,
    Iodef,
}

impl RecordType {
    pub open spec fn name(self) -> Seq<char> {
        match self {
            RecordType::A => "A"@,
            RecordType::Aaaa => "AAAA"@,
            RecordType::Cname => "CNAME"@,
            RecordType::Mx => "MX"@,
            RecordType::Txt => "TXT"@,
            RecordType::Ns => "NS"@,
            RecordType::Srv => "SRV"@,
            RecordType::Caa => "CAA"@,
        }
    }

    pub open spec fn next(self) -> RecordType {
        match self {
            RecordType::A => RecordType::Aaaa,
            RecordType::Aaaa => RecordType::Cname,
            RecordType::Cname => RecordType::Mx,
            RecordType::Mx => RecordType::Txt,
            RecordType::Txt => RecordType::Ns,
            RecordType::Ns => RecordType::Srv,
            RecordType::Srv => RecordType::Caa,
            RecordType::Caa => RecordType::A,
        }
    }

    pub open spec fn prev(self) -> RecordType {
        match self {
            RecordType::A => RecordType::Caa,
            RecordType::Aaaa => RecordType::A,
            RecordType::Cname => RecordType::Aaaa,
            RecordType::Mx => RecordType::Cname,
            RecordType::Txt => RecordType::Mx,
            RecordType::Ns => RecordType::Txt,
            RecordType::Srv => RecordType::Ns,
            RecordType::Caa => RecordType::Srv,
        }
    }

    /// Whether records of the type can be proxied.
    pub open spec fn proxiable(self) -> bool {
        self == RecordType::A || self == RecordType::Aaaa || self == RecordType::Cname
    }

    /// The type of that name, or the first one.
    pub open spec fn of_name(s: Seq<char>) -> RecordType {
        if s == "AAAA"@ {
            RecordType::Aaaa
        } else if s == "CNAME"@ {
            RecordType::Cname
        } else if s == "MX"@ {
            RecordType::Mx
        } else if s == "TXT"@ {
            RecordType::Txt
        } else if s == "NS"@ {
            RecordType::Ns
        } else if s == "SRV"@ {
            RecordType::Srv
        } else if s == "CAA"@ {
            RecordType::Caa
        } else {
            RecordType::A
        }
    }

    pub fn label(self) -> (r: &'static str)
        ensures
            r@ == self.name(),
    {
        match self {
            RecordType::A => "A",
            RecordType::Aaaa => "AAAA",
            RecordType::Cname => "CNAME",
            RecordType::Mx => "MX",
            RecordType::Txt => "TXT",
            RecordType::Ns => "NS",
            RecordType::Srv => "SRV",
            RecordType::Caa => "CAA",
        }
    }

    pub fn following(self) -> (r: RecordType)
        ensures
            r == self.next(),
    {
        match self {
            RecordType::A => RecordType::Aaaa,
            RecordType::Aaaa => RecordType::Cname,
            RecordType::Cname => RecordType::Mx,
            RecordType::Mx => RecordType::Txt,
            RecordType::Txt => RecordType::Ns,
            RecordType::Ns => RecordType::Srv,
            RecordType::Srv => RecordType::Caa,
            RecordType::Caa => RecordType::A,
        }
    }

    pub fn preceding(self) -> (r: RecordType)
        ensures
            r == self.prev(),
    {
        match self {
            RecordType::A => RecordType::Caa,
            RecordType::Aaaa => RecordType::A,
            RecordType::Cname => RecordType::Aaaa,
            RecordType::Mx => RecordType::Cname,
            RecordType::Txt => RecordType::Mx,
            RecordType::Ns => RecordType::Txt,
            RecordType::Srv => RecordType::Ns,
            RecordType::Caa => RecordType::Srv,
        }
    }

    pub fn is_proxiable(self) -> (r: bool)
        ensures
            r == self.proxiable(),
    {
        matches!(self, RecordType::A | RecordType::Aaaa | RecordType::Cname)
    }

    /// The type of that name, or the first one.
    pub fn from_name(s: &str) -> (r: RecordType)
        ensures
            r == RecordType::of_name(s@),
    {
        if text::same(s, "AAAA") {
            RecordType::Aaaa
        } else if text::same(s, "CNAME") {
            RecordType::Cname
        } else if text::same(s, "MX") {
            RecordType::Mx
        } else if text::same(s, "TXT") {
            RecordType::Txt
        } else if text::same(s, "NS") {
            RecordType::Ns
        } else if text::same(s, "SRV") {
            RecordType::Srv
        } else if text::same(s, "CAA") {
            RecordType::Caa
        } else {
            RecordType::A
        }
    }
}

/// Whether records of a type of that name can be proxied.
pub open spec fn proxiable_name(s: Seq<char>) -> bool {
    s == "A"@ || s == "AAAA"@ || s == "CNAME"@
}

pub fn is_proxiable(kind_name: &str) -> (r: bool)
    ensures
        r == proxiable_name(kind_name@),
{
    text::same(kind_name, "A") || text::same(kind_name, "AAAA") || text::same(kind_name, "CNAME")
}

/// A time to live as it is shown; one second means automatic.
pub open spec fn ttl_text(ttl: i64) -> Seq<char> {
    if ttl == 1 {
        "Auto"@
    } else {
        text::decimal_int(ttl as int)
    }
}

pub fn fmt_ttl(ttl: i64) -> (r: String)
    ensures
        r@ == ttl_text(ttl),
{
    if ttl == 1 {
        text::owned("Auto")
    } else {
        text::signed_number(ttl)
    }
}

impl CaaTag {
    pub open spec fn name(self) -> Seq<char> {
        match self {
            CaaTag::Issue => "issue"@,
            CaaTag::IssueWild => "issuewild"@,
            CaaTag::Iodef => "iodef"@,
        }
    }

    pub open spec fn next(self) -> CaaTag {
        match self {
            CaaTag::Issue => CaaTag::IssueWild,
            CaaTag::IssueWild => CaaTag::Iodef,
            CaaTag::Iodef => CaaTag::Issue,
        }
    }

    pub open spec fn prev(self) -> CaaTag {
        match self {
            CaaTag::Issue => CaaTag::Iodef,
            CaaTag::IssueWild => CaaTag::Issue,
            CaaTag::Iodef => CaaTag::IssueWild,
        }
    }

    /// The tag of that name, or the first one.
    pub open spec fn of_name(s: Option<Seq<char>>) -> CaaTag {
        if s == Some("issuewild"@) {
            CaaTag::IssueWild
        } else if s == Some("iodef"@) {
            CaaTag::Iodef
        } else {
            CaaTag::Issue
        }
    }

    pub fn label(self) -> (r: &'static str)
        ensures
            r@ == self.name(),
    {
        match self {
            CaaTag::Issue => "issue",
            CaaTag::IssueWild => "issuewild",
            CaaTag::Iodef => "iodef",
        }
    }

    pub fn cycled(self, back: bool) -> (r: CaaTag)
        ensures
            r == (if back {
                self.prev()
            } else {
                self.next()
            }),
    {
        match self {
            CaaTag::Issue => if back {
                CaaTag::Iodef
            } else {
                CaaTag::IssueWild
            },
            CaaTag::IssueWild => if back {
                CaaTag::Issue
            } else {
                CaaTag::Iodef
            },
            CaaTag::Iodef => if back {
                CaaTag::IssueWild
            } else {
                CaaTag::Issue
            },
        }
    }

    pub fn from_name(s: &Option<String>) -> (r: CaaTag)
        ensures
            r == CaaTag::of_name(s.deep_view()),
    {
        match s {
            Some(t) => if text::same(t.as_str(), "issuewild") {
                CaaTag::IssueWild
            } else if text::same(t.as_str(), "iodef") {
                CaaTag::Iodef
            } else {
                CaaTag::Issue
            },
            None => CaaTag::Issue,
        }
    }
}

// ------------------------------------------------------------- record form

/// The inputs of a record.
#[derive(Clone, Copy, PartialEq, Eq, Structural, Debug)]
pub enum FormField {
    Type,
    Name,
    Priority,
    Weight,
    Port,
    Flags,
    Tag,
    Proxied,
    Value,
    Ttl,
}

pub struct RecordForm {
    pub kind: RecordType,
    pub name: Input,
    pub priority: Input,
    pub weight: Input,
    pub port: Input,
    pub flags: Input,
    pub tag: CaaTag,
    pub proxied: bool,
    pub value: Input,
    pub ttl: Input,
}

pub struct RecordFormModel {
    pub kind: RecordType,
    pub name: InputModel,
    pub priority: InputModel,
    pub weight: InputModel,
    pub port: InputModel,
    pub flags: InputModel,
    pub tag: CaaTag,
    pub proxied: bool,
    pub value: InputModel,
    pub ttl: InputModel,
}

impl View for RecordForm {
    type V = RecordFormModel;

    open spec fn view(&self) -> RecordFormModel {
        RecordFormModel {
            kind: self.kind,
            name: self.name@,
            priority: self.priority@,
            weight: self.weight@,
            port: self.port@,
            flags: self.flags@,
            tag: self.tag,
            proxied: self.proxied,
            value: self.value@,
            ttl: self.ttl@,
        }
    }
}

impl DeepView for RecordForm {
    type V = RecordFormModel;

    open spec fn deep_view(&self) -> RecordFormModel {
        self@
    }
}

/// The inputs that a type needs besides those of every record: MX a priority,
/// SRV also a weight and a port, CAA flags and a tag.
pub open spec fn extra_fields(kind: RecordType) -> Seq<FormField> {
    match kind {
        RecordType::Mx => seq![FormField::Priority],
        RecordType::Srv => seq![FormField::Priority, FormField::Weight, FormField::Port],
        RecordType::Caa => seq![FormField::Flags, FormField::Tag],
        _ => Seq::empty(),
    }
}

/// The inputs of a type in the order of the focus.
pub open spec fn form_fields(kind: RecordType) -> Seq<FormField> {
    seq![FormField::Type, FormField::Name] + extra_fields(kind) + seq![FormField::Value, FormField::Ttl]
        + (if kind.proxiable() {
        seq![FormField::Proxied]
    } else {
        Seq::empty()
    })
}

pub fn form_field_list(kind: RecordType) -> (r: Vec<FormField>)
    ensures
        r@ == form_fields(kind),
{
    let mut v: Vec<FormField> = vec![FormField::Type, FormField::Name];
    match kind {
        RecordType::Mx => v.push(FormField::Priority),
        RecordType::Srv => {
            v.push(FormField::Priority);
            v.push(FormField::Weight);
            v.push(FormField::Port);
        },
        RecordType::Caa => {
            v.push(FormField::Flags);
            v.push(FormField::Tag);
        },
        _ => {},
    }
    v.push(FormField::Value);
    v.push(FormField::Ttl);
    if kind.is_proxiable() {
        v.push(FormField::Proxied);
    }
    assert(v@ =~= form_fields(kind));
    v
}

/// What an integer input holds, or the message that it holds none.
pub open spec fn number_of(i: InputModel, field: Seq<char>) -> Result<int, Seq<char>> {
    match text::in_range(text::integer_value(i.trimmed()), i64::MIN as int, i64::MAX as int) {
        Some(n) => Ok(n),
        None => Err(field + " must be a number"@),
    }
}

pub fn parse_i64_field(input: &Input, field_name: &str) -> (r: Result<i64, String>)
    ensures
        match r {
            Ok(n) => number_of(input@, field_name@) == Ok::<int, Seq<char>>(n as int),
            Err(e) => number_of(input@, field_name@) == Err::<int, Seq<char>>(e@),
        },
{
    let t = input.trimmed();
    match text::parse_i64(t.as_str()) {
        Some(n) => Ok(n),
        None => Err(text::cat2(field_name, " must be a number")),
    }
}

pub open spec fn ttl_not_a_number() -> Seq<char> {
    "TTL must be a number (1 = Automatic, or seconds)"@
}

pub open spec fn ttl_too_small() -> Seq<char> {
    "TTL must be 1 (Automatic) or a positive number of seconds \u{2014} Cloudflare's actual minimum depends on your plan (typically 60s), and is enforced by the API itself"@
}

impl RecordFormModel {
    pub open spec fn empty() -> RecordFormModel {
        RecordFormModel {
            kind: RecordType::A,
            name: InputModel::empty(),
            priority: InputModel::of("10"@),
            weight: InputModel::of("10"@),
            port: InputModel::of("443"@),
            flags: InputModel::of("0"@),
            tag: CaaTag::Issue,
            proxied: true,
            value: InputModel::empty(),
            ttl: InputModel::of("1"@),
        }
    }

    /// An empty form of the same type: several records of one type in a row
    /// are the common case.
    pub open spec fn cleared(self) -> RecordFormModel {
        RecordFormModel { kind: self.kind, ..RecordFormModel::empty() }
    }

    /// The form filled from a record.
    pub open spec fn of(r: DnsRecordModel) -> RecordFormModel {
        RecordFormModel {
            kind: RecordType::of_name(r.type_),
            name: InputModel::of(r.subdomain),
            priority: InputModel::of(text::decimal_int(or_else(r.priority, 10))),
            weight: InputModel::of(text::decimal_int(or_else(r.weight, 10))),
            port: InputModel::of(text::decimal_int(or_else(r.port, 443))),
            flags: InputModel::of(text::decimal_int(or_else(r.flags, 0))),
            tag: CaaTag::of_name(r.tag),
            proxied: r.proxied,
            value: InputModel::of(r.value),
            ttl: InputModel::of(text::decimal_int(r.ttl as int)),
        }
    }

    /// An input edited by a key; nothing for a switch.
    pub open spec fn edit(self, field: FormField, key: KeyCode) -> RecordFormModel {
        match field {
            FormField::Name => RecordFormModel { name: self.name.edit(key), ..self },
            FormField::Priority => RecordFormModel { priority: self.priority.edit(key), ..self },
            FormField::Weight => RecordFormModel { weight: self.weight.edit(key), ..self },
            FormField::Port => RecordFormModel { port: self.port.edit(key), ..self },
            FormField::Flags => RecordFormModel { flags: self.flags.edit(key), ..self },
            FormField::Value => RecordFormModel { value: self.value.edit(key), ..self },
            FormField::Ttl => RecordFormModel { ttl: self.ttl.edit(key), ..self },
            _ => self,
        }
    }

    /// A switch turned, forwards or back.
    pub open spec fn switched(self, field: FormField, back: bool) -> RecordFormModel {
        match field {
            FormField::Type => RecordFormModel {
                kind: if back {
                    self.kind.prev()
                } else {
                    self.kind.next()
                },
                ..self
            },
            FormField::Tag => RecordFormModel {
                tag: if back {
                    self.tag.prev()
                } else {
                    self.tag.next()
                },
                ..self
            },
            FormField::Proxied => RecordFormModel { proxied: !self.proxied, ..self },
            _ => self,
        }
    }

    /// The record that the form describes, or what is wrong with it. The time
    /// to live is looked at first, then the value, then the inputs of the type.
    pub open spec fn parsed(self) -> Result<DnsRecordInputModel, Seq<char>> {
        match text::in_range(text::integer_value(self.ttl.trimmed()), i64::MIN as int, i64::MAX as int) {
            None => Err(ttl_not_a_number()),
            Some(ttl) => if ttl < 1 {
                Err(ttl_too_small())
            } else if self.value.trimmed().len() == 0 {
                Err("Value is required"@)
            } else {
                self.with_extras(
                    DnsRecordInputModel {
                        type_: self.kind.name(),
                        subdomain: self.name.trimmed(),
                        value: self.value.trimmed(),
                        ttl: ttl as i64,
                        proxied: self.kind.proxiable() && self.proxied,
                        priority: None,
                        weight: None,
                        port: None,
                        flags: None,
                        tag: None,
                    },
                )
            },
        }
    }

    /// A record with the inputs of its type, or what is wrong with the first
    /// of them that is no number.
    pub open spec fn with_extras(self, r: DnsRecordInputModel) -> Result<DnsRecordInputModel, Seq<char>> {
        match self.kind {
            RecordType::Mx => match number_of(self.priority, "Priority"@) {
                Ok(p) => Ok(DnsRecordInputModel { priority: Some(p as i64), ..r }),
                Err(e) => Err(e),
            },
            RecordType::Srv => match number_of(self.priority, "Priority"@) {
                Err(e) => Err(e),
                Ok(p) => match number_of(self.weight, "Weight"@) {
                    Err(e) => Err(e),
                    Ok(w) => match number_of(self.port, "Port"@) {
                        Err(e) => Err(e),
                        Ok(o) => Ok(
                            DnsRecordInputModel {
                                priority: Some(p as i64),
                                weight: Some(w as i64),
                                port: Some(o as i64),
                                ..r
                            },
                        ),
                    },
                },
            },
            RecordType::Caa => match number_of(self.flags, "Flags"@) {
                Ok(n) => Ok(DnsRecordInputModel { flags: Some(n as i64), tag: Some(self.tag.name()), ..r }),
                Err(e) => Err(e),
            },
            _ => Ok(r),
        }
    }

    // The columns of the row `Type: [ A ] (..)   Name: ...  TTL: ...  Proxied: [ .. ]`.

    pub open spec fn type_width(self) -> int {
        self.kind.name().len() as int + 4
    }

    pub open spec fn name_column(self) -> int {
        6 + self.type_width() + 9 + 6
    }

    pub open spec fn ttl_column(self) -> int {
        self.name_column() + 20 + 2 + 5
    }

    pub open spec fn proxied_column(self) -> int {
        self.ttl_column() + 8 + 2 + 9
    }

    /// Which input of that row column `off` belongs to, and whether a click
    /// there turns a switch.
    pub open spec fn main_hit(self, off: int) -> Option<(FormField, bool)> {
        if 6 <= off < 6 + self.type_width() {
            Some((FormField::Type, true))
        } else if self.kind.proxiable() && off >= self.proxied_column() {
            Some((FormField::Proxied, true))
        } else if off >= self.ttl_column() {
            Some((FormField::Ttl, false))
        } else if off >= self.name_column() {
            Some((FormField::Name, false))
        } else {
            None
        }
    }

    /// Which input of the row of the type column `off` belongs to.
    pub open spec fn extra_hit(self, off: int) -> Option<(FormField, bool)> {
        match self.kind {
            RecordType::Mx => Some((FormField::Priority, false)),
            RecordType::Srv => Some(
                (
                    if off >= 40 {
                        FormField::Port
                    } else if off >= 26 {
                        FormField::Weight
                    } else {
                        FormField::Priority
                    },
                    false,
                ),
            ),
            RecordType::Caa => if 28 <= off < 28 + self.tag.name().len() + 4 {
                Some((FormField::Tag, true))
            } else {
                Some((FormField::Flags, false))
            },
            _ => None,
        }
    }
}

pub open spec fn or_else(v: Option<i64>, default: int) -> int {
    match v {
        Some(n) => n as int,
        None => default,
    }
}

fn number_or(v: Option<i64>, default: i64) -> (r: String)
    ensures
        r@ == text::decimal_int(or_else(v, default as int)),
{
    match v {
        Some(n) => text::signed_number(n),
        None => text::signed_number(default),
    }
}

impl RecordForm {
    pub fn new() -> (r: RecordForm)
        ensures
            r@ == RecordFormModel::empty(),
    {
        RecordForm {
            kind: RecordType::A,
            name: Input::default(),
            priority: Input::new("10"),
            weight: Input::new("10"),
            port: Input::new("443"),
            flags: Input::new("0"),
            tag: CaaTag::Issue,
            proxied: true,
            value: Input::default(),
            ttl: Input::new("1"),
        }
    }

    pub fn from_record(r: &DnsRecord) -> (f: RecordForm)
        ensures
            f@ == RecordFormModel::of(r@),
    {
        let priority = number_or(r.priority, 10);
        let weight = number_or(r.weight, 10);
        let port = number_or(r.port, 443);
        let flags = number_or(r.flags, 0);
        let ttl = text::signed_number(r.ttl);
        RecordForm {
            kind: RecordType::from_name(r.type_.as_str()),
            name: Input::new(r.subdomain.as_str()),
            priority: Input::new(priority.as_str()),
            weight: Input::new(weight.as_str()),
            port: Input::new(port.as_str()),
            flags: Input::new(flags.as_str()),
            tag: CaaTag::from_name(&r.tag),
            proxied: r.proxied,
            value: Input::new(r.value.as_str()),
            ttl: Input::new(ttl.as_str()),
        }
    }

    pub fn clear_inputs(&mut self)
        ensures
            final(self)@ == old(self)@.cleared(),
    {
        self.name = Input::default();
        self.priority = Input::new("10");
        self.weight = Input::new("10");
        self.port = Input::new("443");
        self.flags = Input::new("0");
        self.tag = CaaTag::Issue;
        self.proxied = true;
        self.value = Input::default();
        self.ttl = Input::new("1");
    }

    pub fn edit(&mut self, field: FormField, key: KeyCode)
        ensures
            final(self)@ == old(self)@.edit(field, key),
    {
        match field {
            FormField::Name => self.name.edit(key),
            FormField::Priority => self.priority.edit(key),
            FormField::Weight => self.weight.edit(key),
            FormField::Port => self.port.edit(key),
            FormField::Flags => self.flags.edit(key),
            FormField::Value => self.value.edit(key),
            FormField::Ttl => self.ttl.edit(key),
            _ => {},
        }
    }

    pub fn switch(&mut self, field: FormField, back: bool)
        ensures
            final(self)@ == old(self)@.switched(field, back),
    {
        match field {
            FormField::Type => {
                self.kind = if back {
                    self.kind.preceding()
                } else {
                    self.kind.following()
                };
            },
            FormField::Tag => self.tag = self.tag.cycled(back),
            FormField::Proxied => self.proxied = !self.proxied,
            _ => {},
        }
    }

    /// The record that the form describes, or what is wrong with it.
    pub fn parse_modal_record(&self) -> (r: Result<DnsRecordInput, String>)
        ensures
            match r {
                Ok(i) => self@.parsed() == Ok::<DnsRecordInputModel, Seq<char>>(i@),
                Err(e) => self@.parsed() == Err::<DnsRecordInputModel, Seq<char>>(e@),
            },
    {
        let t = self.ttl.trimmed();
        let ttl: i64 = match text::parse_i64(t.as_str()) {
            Some(n) => n,
            None => {
                return Err(text::owned("TTL must be a number (1 = Automatic, or seconds)"));
            },
        };
        if ttl < 1 {
            return Err(
                text::owned(
                    "TTL must be 1 (Automatic) or a positive number of seconds \u{2014} Cloudflare's actual minimum depends on your plan (typically 60s), and is enforced by the API itself",
                ),
            );
        }
        let value = self.value.trimmed();
        if value.as_str().is_empty() {
            return Err(text::owned("Value is required"));
        }
        let mut input = DnsRecordInput {
            type_: text::owned(self.kind.label()),
            subdomain: self.name.trimmed(),
            value,
            ttl,
            proxied: self.kind.is_proxiable() && self.proxied,
            priority: None,
            weight: None,
            port: None,
            flags: None,
            tag: None,
        };
        match self.kind {
            RecordType::Mx => match parse_i64_field(&self.priority, "Priority") {
                Ok(n) => input.priority = Some(n),
                Err(e) => return Err(e),
            },
            RecordType::Srv => {
                match parse_i64_field(&self.priority, "Priority") {
                    Ok(n) => input.priority = Some(n),
                    Err(e) => return Err(e),
                }
                match parse_i64_field(&self.weight, "Weight") {
                    Ok(n) => input.weight = Some(n),
                    Err(e) => return Err(e),
                }
                match parse_i64_field(&self.port, "Port") {
                    Ok(n) => input.port = Some(n),
                    Err(e) => return Err(e),
                }
            },
            RecordType::Caa => {
                match parse_i64_field(&self.flags, "Flags") {
                    Ok(n) => input.flags = Some(n),
                    Err(e) => return Err(e),
                }
                input.tag = Some(text::owned(self.tag.label()));
            },
            _ => {},
        }
        Ok(input)
    }

    /// Which input of the row of type, name and time a column belongs to.
    pub fn main_row_hit(&self, off: usize) -> (r: Option<(FormField, bool)>)
        ensures
            r == self@.main_hit(off as int),
    {
        let w: usize = self.kind.label().unicode_len();
        proof {
            lemma_name_lengths();
        }
        if off >= 6 && off < 10 + w {
            return Some((FormField::Type, true));
        }
        if self.kind.is_proxiable() && off >= 71 + w {
            return Some((FormField::Proxied, true));
        }
        if off >= 52 + w {
            return Some((FormField::Ttl, false));
        }
        if off >= 25 + w {
            return Some((FormField::Name, false));
        }
        None
    }

    /// Which input of the row of the type a column belongs to.
    pub fn extra_row_hit(&self, off: usize) -> (r: Option<(FormField, bool)>)
        ensures
            r == self@.extra_hit(off as int),
    {
        match self.kind {
            RecordType::Mx => Some((FormField::Priority, false)),
            RecordType::Srv => Some(
                (
                    if off >= 40 {
                        FormField::Port
                    } else if off >= 26 {
                        FormField::Weight
                    } else {
                        FormField::Priority
                    },
                    false,
                ),
            ),
            RecordType::Caa => {
                let w: usize = self.tag.label().unicode_len();
                proof {
                    lemma_tag_lengths();
                }
                if off >= 28 && off < 32 + w {
                    Some((FormField::Tag, true))
                } else {
                    Some((FormField::Flags, false))
                }
            },
            _ => None,
        }
    }
}

/// The names of the types are short.
pub proof fn lemma_name_lengths()
    ensures
        forall|k: RecordType| 1 <= #[trigger] k.name().len() <= 5,
{
    reveal_strlit("A");
    reveal_strlit("AAAA");
    reveal_strlit("CNAME");
    reveal_strlit("MX");
    reveal_strlit("TXT");
    reveal_strlit("NS");
    reveal_strlit("SRV");
    reveal_strlit("CAA");
}

/// The names of the tags are short.
pub proof fn lemma_tag_lengths()
    ensures
        forall|t: CaaTag| 5 <= #[trigger] t.name().len() <= 9,
{
    reveal_strlit("issue");
    reveal_strlit("issuewild");
    reveal_strlit("iodef");
}

// -------------------------------------------------------------------- laws

/// Cycling back undoes cycling forward, and eight steps come round.
pub proof fn type_cycle(k: RecordType)
    ensures
        k.next().prev() == k,
        k.prev().next() == k,
        k.next().next().next().next().next().next().next().next() == k,
{
}

pub proof fn tag_cycle(t: CaaTag)
    ensures
        t.next().prev() == t,
        t.prev().next() == t,
        t.next().next().next() == t,
{
}

/// The name of a type names that type, so a record keeps its type when it is edited.
pub proof fn kind_names_round_trip(k: RecordType)
    ensures
        RecordType::of_name(k.name()) == k,
        proxiable_name(k.name()) == k.proxiable(),
{
    reveal_strlit("A");
    reveal_strlit("AAAA");
    reveal_strlit("CNAME");
    reveal_strlit("MX");
    reveal_strlit("TXT");
    reveal_strlit("NS");
    reveal_strlit("SRV");
    reveal_strlit("CAA");
    assert("A"@.len() == 1 && "AAAA"@.len() == 4 && "CNAME"@.len() == 5);
    assert("MX"@.len() == 2 && "NS"@.len() == 2);
    assert("TXT"@.len() == 3 && "SRV"@.len() == 3 && "CAA"@.len() == 3);
    assert("MX"@[0] == 'M' && "NS"@[0] == 'N');
    assert("TXT"@[0] == 'T' && "SRV"@[0] == 'S' && "CAA"@[0] == 'C');
    match k {
        RecordType::A => {},
        RecordType::Aaaa => {},
        RecordType::Cname => {},
        RecordType::Mx => {
            assert("MX"@ != "NS"@);
        },
        RecordType::Txt => {},
        RecordType::Ns => {
            assert("MX"@ != "NS"@);
        },
        RecordType::Srv => {
            assert("TXT"@ != "SRV"@);
        },
        RecordType::Caa => {
            assert("TXT"@ != "CAA"@);
            assert("SRV"@ != "CAA"@);
        },
    }
}

/// A payload carries the extra numbers of its type and no others; only
/// types that can be proxied are; and the time to live is positive.
pub proof fn payloads_fit_their_type(f: RecordFormModel)
    ensures
        f.parsed() matches Ok(r) ==> {
            &&& r.type_ == f.kind.name()
            &&& r.ttl >= 1
            &&& r.value.len() > 0
            &&& r.proxied ==> f.kind.proxiable()
            &&& r.priority is Some <==> f.kind == RecordType::Mx || f.kind == RecordType::Srv
            &&& r.weight is Some <==> f.kind == RecordType::Srv
            &&& r.port is Some <==> f.kind == RecordType::Srv
            &&& r.flags is Some <==> f.kind == RecordType::Caa
            &&& r.tag is Some <==> f.kind == RecordType::Caa
        },
{
}

/// The inputs that the focus goes through have no duplicates, and hold
/// exactly those that the type uses.
pub proof fn form_fields_are_distinct(kind: RecordType)
    ensures
        form_fields(kind).no_duplicates(),
        form_fields(kind).contains(FormField::Proxied) <==> kind.proxiable(),
        form_fields(kind).contains(FormField::Weight) <==> kind == RecordType::Srv,
        form_fields(kind).contains(FormField::Tag) <==> kind == RecordType::Caa,
{
    let s = form_fields(kind);
    match kind {
        RecordType::A | RecordType::Aaaa | RecordType::Cname => {
            assert(s =~= seq![FormField::Type, FormField::Name, FormField::Value, FormField::Ttl, FormField::Proxied]);
            assert(s[4] == FormField::Proxied);
        },
        RecordType::Mx => {
            assert(s =~= seq![FormField::Type, FormField::Name, FormField::Priority, FormField::Value, FormField::Ttl]);
        },
        RecordType::Srv => {
            assert(s =~= seq![
                FormField::Type,
                FormField::Name,
                FormField::Priority,
                FormField::Weight,
                FormField::Port,
                FormField::Value,
                FormField::Ttl,
            ]);
            assert(s[3] == FormField::Weight);
        },
        RecordType::Caa => {
            assert(s =~= seq![
                FormField::Type,
                FormField::Name,
                FormField::Flags,
                FormField::Tag,
                FormField::Value,
                FormField::Ttl,
            ]);
            assert(s[3] == FormField::Tag);
        },
        _ => {
            assert(s =~= seq![FormField::Type, FormField::Name, FormField::Value, FormField::Ttl]);
        },
    }
}

} // verus!
