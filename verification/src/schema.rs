//! The attribute schema: which keys a `detail` attribute may hold, what each takes, and what
//! a variant has when a key is left out.

use vstd::prelude::*;
use vstd::string::StringExecFns;
use crate::declaration::{Attribute, AttributeModel, MetaItem, MetaItemModel, MetaValue, MetaValueModel};
use crate::error::{Fault, FaultModel, SchemaErrorKind};
use crate::model::{optional_text, outcome, views};

verus! {

/// The status of a variant that configures none.
pub const DEFAULT_HTTP_CODE: u16 = 400;

/// The path of the attributes that the schema reads. Attributes with another path are passed
/// over.
pub open spec fn attribute_path() -> Seq<char> {
    "detail"@
}

/// The key of the numeric status.
pub open spec fn code_key() -> Seq<char> {
    "code"@
}

/// The key of the message.
pub open spec fn message_key() -> Seq<char> {
    "message"@
}

/// What the attributes of one variant configure. A key that was not given is `None`.
#[derive(Clone, Debug, PartialEq, Eq)]
pub struct Settings {
    pub code: Option<u16>,
    pub message: Option<String>,
}

/// The model of [`Settings`].
pub struct SettingsModel {
    pub code: Option<u16>,
    pub message: Option<Seq<char>>,
}

impl View for Settings {
    type V = SettingsModel;

    open spec fn view(&self) -> SettingsModel {
        SettingsModel { code: self.code, message: optional_text(self.message) }
    }
}

/// Nothing configured.
pub open spec fn unset() -> SettingsModel {
    SettingsModel { code: None, message: None }
}

/// The settings after one more item, or the reason why the item is refused.
///
/// `code` takes an integer literal of at most 65535, `message` a string literal; each may be
/// given once; no other key is known.
pub open spec fn applied(settings: SettingsModel, item: MetaItemModel) -> Result<
    SettingsModel,
    FaultModel,
> {
    if item.key == code_key() {
        if settings.code is Some {
            Err(FaultModel { key: item.key, kind: SchemaErrorKind::DuplicateKey })
        } else {
            match item.value {
                MetaValueModel::Int(n) if n <= u16::MAX => Ok(
                    SettingsModel { code: Some(n as u16), ..settings },
                ),
                _ => Err(FaultModel { key: item.key, kind: SchemaErrorKind::InvalidValue }),
            }
        }
    } else if item.key == message_key() {
        if settings.message is Some {
            Err(FaultModel { key: item.key, kind: SchemaErrorKind::DuplicateKey })
        } else {
            match item.value {
                MetaValueModel::Str(text) => Ok(
                    SettingsModel { message: Some(text), ..settings },
                ),
                _ => Err(FaultModel { key: item.key, kind: SchemaErrorKind::InvalidValue }),
            }
        }
    } else {
        Err(FaultModel { key: item.key, kind: SchemaErrorKind::UnknownKey })
    }
}

/// The settings after `items`, taken in order; the first item that is refused ends the
/// reading.
pub open spec fn read_items(settings: SettingsModel, items: Seq<MetaItemModel>) -> Result<
    SettingsModel,
    FaultModel,
>
    decreases items.len(),
{
    if items.len() == 0 {
        Ok(settings)
    } else {
        match applied(settings, items[0]) {
            Ok(next) => read_items(next, items.drop_first()),
            Err(fault) => Err(fault),
        }
    }
}

/// The items that the schema reads on one variant: those of its `detail` attributes, in the
/// order in which they are written. Attributes with another path contribute nothing.
pub open spec fn options(attrs: Seq<AttributeModel>) -> Seq<MetaItemModel>
    decreases attrs.len(),
{
    if attrs.len() == 0 {
        Seq::empty()
    } else if attrs[0].path == attribute_path() {
        attrs[0].items + options(attrs.drop_first())
    } else {
        options(attrs.drop_first())
    }
}

/// What the attributes of one variant configure, or the first of their items that is
/// refused.
pub open spec fn settings_of(attrs: Seq<AttributeModel>) -> Result<SettingsModel, FaultModel> {
    read_items(unset(), options(attrs))
}

/// Whether the schema knows the key.
pub open spec fn known(key: Seq<char>) -> bool {
    key == code_key() || key == message_key()
}

/// Whether the value of an item with a known key is of the key's type.
pub open spec fn fits(item: MetaItemModel) -> bool {
    if item.key == code_key() {
        item.value matches MetaValueModel::Int(n) && n <= u16::MAX
    } else {
        item.value is Str
    }
}

/// Whether the key of item `k` was given by an earlier item.
pub open spec fn repeats(items: Seq<MetaItemModel>, k: int) -> bool {
    exists|j: int| 0 <= j < k && (#[trigger] items[j]).key == items[k].key
}

/// Why item `k` is refused, if it is.
pub open spec fn refusal_of(items: Seq<MetaItemModel>, k: int) -> Option<SchemaErrorKind> {
    if !known(items[k].key) {
        Some(SchemaErrorKind::UnknownKey)
    } else if repeats(items, k) {
        Some(SchemaErrorKind::DuplicateKey)
    } else if !fits(items[k]) {
        Some(SchemaErrorKind::InvalidValue)
    } else {
        None
    }
}

/// No item before `k` is refused.
pub open spec fn accepted_before(items: Seq<MetaItemModel>, k: int) -> bool {
    forall|j: int| 0 <= j < k ==> refusal_of(items, j) is None
}

/// No item is refused: every key is known and given once, and every value is of its key's
/// type.
pub open spec fn meets_schema(items: Seq<MetaItemModel>) -> bool {
    accepted_before(items, items.len() as int)
}

/// Whether some item is `code = status`.
pub open spec fn writes_code(items: Seq<MetaItemModel>, status: u16) -> bool {
    exists|k: int|
        0 <= k < items.len() && #[trigger] items[k] == (MetaItemModel {
            key: code_key(),
            value: MetaValueModel::Int(status as u64),
        })
}

/// Whether some item is `message = "text"`.
pub open spec fn writes_message(items: Seq<MetaItemModel>, text: Seq<char>) -> bool {
    exists|k: int|
        0 <= k < items.len() && #[trigger] items[k] == (MetaItemModel {
            key: message_key(),
            value: MetaValueModel::Str(text),
        })
}

/// Whether some item has this key.
pub open spec fn mentions(items: Seq<MetaItemModel>, key: Seq<char>) -> bool {
    exists|k: int| 0 <= k < items.len() && (#[trigger] items[k]).key == key
}

/// The two keys are different words.
pub proof fn lemma_keys_differ()
    ensures
        code_key() != message_key(),
{
    reveal_strlit("code");
    reveal_strlit("message");
    assert(code_key().len() == 4);
    assert(message_key().len() == 7);
}

/// Reading one more item after `items` applies it to what `items` gave.
pub proof fn lemma_read_one_more(
    settings: SettingsModel,
    items: Seq<MetaItemModel>,
    last: MetaItemModel,
)
    ensures
        read_items(settings, items.push(last)) == match read_items(settings, items) {
            Ok(so_far) => applied(so_far, last),
            Err(fault) => Err(fault),
        },
    decreases items.len(),
{
    let all = items.push(last);
    if items.len() == 0 {
        assert(all.drop_first() =~= items);
        assert(all[0] == last);
        assert(read_items(settings, all) == match applied(settings, last) {
            Ok(next) => read_items(next, all.drop_first()),
            Err(fault) => Err(fault),
        });
    } else {
        assert(all[0] == items[0]);
        assert(all.drop_first() =~= items.drop_first().push(last));
        match applied(settings, items[0]) {
            Ok(next) => {
                lemma_read_one_more(next, items.drop_first(), last);
            },
            Err(_) => {},
        }
    }
}

/// What reading a list of items from nothing gives, said item by item.
///
/// The reading succeeds exactly on a list that meets the schema, and then holds what was
/// written: a status exactly where an item gives `code`, a message exactly where one gives
/// `message`. Where it fails, the fault is that of the first refused item.
pub proof fn lemma_read_items_by_item(items: Seq<MetaItemModel>)
    ensures
        match read_items(unset(), items) {
            Ok(settings) => {
                &&& meets_schema(items)
                &&& settings.code matches Some(status) ==> writes_code(items, status)
                &&& settings.code is None ==> !mentions(items, code_key())
                &&& settings.message matches Some(text) ==> writes_message(items, text)
                &&& settings.message is None ==> !mentions(items, message_key())
            },
            Err(fault) => exists|k: int|
                {
                    &&& 0 <= k < items.len()
                    &&& accepted_before(items, k)
                    &&& #[trigger] refusal_of(items, k) == Some(fault.kind)
                    &&& items[k].key == fault.key
                },
        },
    decreases items.len(),
{
    lemma_keys_differ();
    if items.len() > 0 {
        let shorter = items.drop_last();
        let last = items.last();
        let n = shorter.len() as int;
        assert(items =~= shorter.push(last));
        lemma_read_items_by_item(shorter);
        lemma_read_one_more(unset(), shorter, last);
        assert forall|j: int| 0 <= j < n implies refusal_of(items, j) == refusal_of(
            shorter,
            j,
        ) by {
            assert(items[j] == shorter[j]);
            if repeats(shorter, j) {
                let i = choose|i: int| 0 <= i < j && (#[trigger] shorter[i]).key == shorter[j].key;
                assert(items[i] == shorter[i]);
            }
            if repeats(items, j) {
                let i = choose|i: int| 0 <= i < j && (#[trigger] items[i]).key == items[j].key;
                assert(items[i] == shorter[i]);
            }
        }
        match read_items(unset(), shorter) {
            Ok(so_far) => {
                assert(accepted_before(items, n));
                if so_far.code is Some {
                    let status = so_far.code->Some_0;
                    let k = choose|k: int|
                        0 <= k < shorter.len() && #[trigger] shorter[k] == (MetaItemModel {
                            key: code_key(),
                            value: MetaValueModel::Int(status as u64),
                        });
                    assert(items[k] == shorter[k]);
                    assert(writes_code(items, status));
                    assert(repeats(items, n) <== last.key == code_key());
                }
                if so_far.message is Some {
                    let text = so_far.message->Some_0;
                    let k = choose|k: int|
                        0 <= k < shorter.len() && #[trigger] shorter[k] == (MetaItemModel {
                            key: message_key(),
                            value: MetaValueModel::Str(text),
                        });
                    assert(items[k] == shorter[k]);
                    assert(writes_message(items, text));
                    assert(repeats(items, n) <== last.key == message_key());
                }
                if repeats(items, n) {
                    let j = choose|j: int| 0 <= j < n && (#[trigger] items[j]).key == items[n].key;
                    assert(shorter[j] == items[j]);
                    assert(mentions(shorter, last.key));
                }
                if mentions(items, code_key()) && !mentions(shorter, code_key()) {
                    let k = choose|k: int|
                        0 <= k < items.len() && (#[trigger] items[k]).key == code_key();
                    if k < n {
                        assert(shorter[k] == items[k]);
                    }
                    assert(last.key == code_key());
                }
                if mentions(items, message_key()) && !mentions(shorter, message_key()) {
                    let k = choose|k: int|
                        0 <= k < items.len() && (#[trigger] items[k]).key == message_key();
                    if k < n {
                        assert(shorter[k] == items[k]);
                    }
                    assert(last.key == message_key());
                }
                match applied(so_far, last) {
                    Ok(settings) => {
                        assert(refusal_of(items, n) is None);
                        assert(items[n] == last);
                    },
                    Err(fault) => {
                        assert(refusal_of(items, n) == Some(fault.kind));
                        assert(items[n].key == fault.key);
                    },
                }
            },
            Err(fault) => {
                let k = choose|k: int|
                    {
                        &&& 0 <= k < shorter.len()
                        &&& accepted_before(shorter, k)
                        &&& #[trigger] refusal_of(shorter, k) == Some(fault.kind)
                        &&& shorter[k].key == fault.key
                    };
                assert(refusal_of(items, k) == Some(fault.kind));
                assert(accepted_before(items, k));
            },
        }
    }
}

/// Whether the schema reads attributes with this path.
pub fn reads(path: &str) -> (answer: bool)
    ensures
        answer == (path@ == attribute_path()),
{
    String::from_str(path) == String::from_str("detail")
}

/// Reads one item into `settings`.
pub fn apply(settings: Settings, item: &MetaItem) -> (result: Result<Settings, Fault>)
    ensures
        outcome(result) == applied(settings@, item@),
{
    if item.key == String::from_str("code") {
        if settings.code.is_some() {
            return Err(Fault { key: item.key.clone(), kind: SchemaErrorKind::DuplicateKey });
        }
        match &item.value {
            MetaValue::Int(n) => {
                if *n <= 65535 {
                    Ok(Settings { code: Some(*n as u16), message: settings.message })
                } else {
                    Err(Fault { key: item.key.clone(), kind: SchemaErrorKind::InvalidValue })
                }
            },
            _ => Err(Fault { key: item.key.clone(), kind: SchemaErrorKind::InvalidValue }),
        }
    } else if item.key == String::from_str("message") {
        if settings.message.is_some() {
            return Err(Fault { key: item.key.clone(), kind: SchemaErrorKind::DuplicateKey });
        }
        match &item.value {
            MetaValue::Str(text) => Ok(
                Settings { code: settings.code, message: Some(text.clone()) },
            ),
            _ => Err(Fault { key: item.key.clone(), kind: SchemaErrorKind::InvalidValue }),
        }
    } else {
        Err(Fault { key: item.key.clone(), kind: SchemaErrorKind::UnknownKey })
    }
}

/// Reads the attributes of one variant.
///
/// Succeeds exactly when the items of the `detail` attributes meet the schema; fails with
/// the key of the first item that does not, and with what is wrong with it.
pub fn read(attrs: &Vec<Attribute>) -> (result: Result<Settings, Fault>)
    ensures
        outcome(result) == settings_of(views(attrs@)),
        result is Ok <==> meets_schema(options(views(attrs@))),
{
    let ghost all = views(attrs@);
    proof {
        lemma_read_items_by_item(options(all));
    }
    let mut settings = Settings { code: None, message: None };
    let mut a: usize = 0;
    assert(all.skip(0) =~= all);
    while a < attrs.len()
        invariant
            a <= attrs.len(),
            all == views(attrs@),
            settings_of(all) == read_items(settings@, options(all.skip(a as int))),
        decreases attrs.len() - a,
    {
        let attribute = &attrs[a];
        let ghost rest = all.skip(a as int);
        let ghost later = options(all.skip(a + 1));
        proof {
            assert(rest[0] == attribute@);
            assert(rest.drop_first() =~= all.skip(a + 1));
        }
        if reads(attribute.path.as_str()) {
            let ghost items = views(attribute.items@);
            let mut i: usize = 0;
            assert(items.skip(0) =~= items);
            while i < attribute.items.len()
                invariant
                    i <= attribute.items.len(),
                    items == views(attribute.items@),
                    all == views(attrs@),
                    settings_of(all) == read_items(settings@, items.skip(i as int) + later),
                decreases attribute.items.len() - i,
            {
                let ghost pending = items.skip(i as int) + later;
                proof {
                    assert(pending[0] == attribute.items@[i as int]@);
                    assert(pending.drop_first() =~= items.skip(i + 1) + later);
                }
                match apply(settings, &attribute.items[i]) {
                    Ok(next) => {
                        settings = next;
                    },
                    Err(fault) => {
                        proof {
                            lemma_read_items_by_item(options(all));
                        }
                        return Err(fault);
                    },
                }
                i += 1;
            }
            assert(items.skip(i as int) + later =~= later);
        }
        a += 1;
    }
    assert(all.skip(a as int).len() == 0);
    Ok(settings)
}

} // verus!
