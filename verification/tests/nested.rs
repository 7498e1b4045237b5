use rust_qt_binding_generator::configuration::json;
use rust_qt_binding_generator::configuration::{
    Argument, Function, ItemProperty, ObjectType, Rust, SimpleType,
};
use rust_qt_binding_generator::manifest::Manifest;
use rust_qt_binding_generator::rust::Implementation;
use rust_qt_binding_generator::configuration::Config;
use rust_qt_binding_generator::cpp::{write_cpp, write_header};
use rust_qt_binding_generator::read_bindings_file;
use rust_qt_binding_generator::rust::{write_implementation, write_interface};

fn property(type_text: &str, optional: bool, write: bool) -> json::Property {
    json::Property { optional, property_type: type_text.to_string(), rust_by_function: false, write }
}

fn item(t: SimpleType, optional: bool, write: bool, roles: Vec<Vec<&str>>) -> ItemProperty {
    ItemProperty {
        item_property_type: t,
        optional,
        roles: roles.into_iter().map(|c| c.into_iter().map(|r| r.to_string()).collect()).collect(),
        rust_by_value: false,
        write,
    }
}

fn config() -> Config {
    let text = |optional: bool, write: bool, by_function: bool| json::Property {
        optional,
        property_type: "QString".to_string(),
        rust_by_function: by_function,
        write,
    };
    let inner = json::Object {
        functions: vec![
            (
                "clear".to_string(),
                Function { return_type: SimpleType::Void, mutable: true, arguments: vec![] },
            ),
            (
                "rename".to_string(),
                Function {
                    return_type: SimpleType::Bool,
                    mutable: true,
                    arguments: vec![Argument { name: "to".to_string(), argument_type: SimpleType::QString }],
                },
            ),
            (
                "size".to_string(),
                Function { return_type: SimpleType::QUint64, mutable: false, arguments: vec![] },
            ),
        ],
        item_properties: vec![],
        object_type: ObjectType::Object,
        properties: vec![
            ("blob".to_string(), property("QByteArray", true, true)),
            ("count".to_string(), property("quint32", false, true)),
            ("data".to_string(), property("QByteArray", false, true)),
            ("note".to_string(), text(true, true, false)),
            ("title".to_string(), text(false, false, true)),
        ],
    };
    let mut icon = item(SimpleType::QByteArray, true, true, vec![vec!["decoration"]]);
    icon.rust_by_value = true;
    let mut size = item(SimpleType::QUint64, false, false, vec![]);
    size.rust_by_value = true;
    let outer = json::Object {
        functions: vec![],
        item_properties: vec![
            ("icon".to_string(), icon),
            ("path".to_string(), item(SimpleType::QString, true, true, vec![vec!["display", "toolTip"], vec!["edit"]])),
            ("raw".to_string(), item(SimpleType::QByteArray, false, true, vec![])),
            ("size".to_string(), size),
        ],
        object_type: ObjectType::Tree,
        properties: vec![
            ("inner".to_string(), property("Inner", false, false)),
            ("name".to_string(), text(false, false, false)),
        ],
    };
    let json = json::Config {
        cpp_file: "Bindings.cpp".to_string(),
        objects: vec![("Inner".to_string(), inner), ("Outer".to_string(), outer)],
        rust: Rust {
            dir: "rust".to_string(),
            implementation_module: "implementation".to_string(),
            interface_module: "interface".to_string(),
        },
        overwrite_implementation: false,
    };
    read_bindings_file(
        "bindings.json",
        json,
        Manifest::Text("[package]\nedition = \"2018\"\n".to_string()),
    )
    .ok()
    .unwrap()
}

fn assert_same_text(found: &str, expected: &str) {
    let f: Vec<&str> = found.split('\n').collect();
    let e: Vec<&str> = expected.split('\n').collect();
    for i in 0..f.len().min(e.len()) {
        assert_eq!(f[i], e[i], "line {}", i + 1);
    }
    assert_eq!(f.len(), e.len());
}

#[test]
fn the_header_of_a_tree_with_an_object_inside() {
    assert_same_text(&write_header(&config(), "Bindings.h").unwrap(), HEADER);
}

#[test]
fn the_source_of_a_tree_with_an_object_inside() {
    assert_same_text(&write_cpp(&config(), "Bindings.h").unwrap(), CPP);
}

#[test]
fn the_interface_of_a_tree_with_an_object_inside() {
    assert_same_text(&write_interface(&config()).unwrap(), INTERFACE);
}

#[test]
fn the_implementation_of_a_tree_with_an_object_inside() {
    match write_implementation(&config(), false) {
        Some(Implementation::Written(text)) => assert_same_text(&text, IMPLEMENTATION),
        _ => panic!("nothing was written"),
    }
}

const HEADER: &str = "/* generated by rust_qt_binding_generator */
#ifndef BINDINGS_H
#define BINDINGS_H

#include <QtCore/QObject>
#include <QtCore/QAbstractItemModel>

class Inner;
class Outer;

class Inner : public QObject
{
    Q_OBJECT
    friend class Outer;
public:
    class Private;
private:
    Private * m_d;
    bool m_ownsPrivate;
    Q_PROPERTY(QByteArray blob READ blob WRITE setBlob NOTIFY blobChanged FINAL)
    Q_PROPERTY(quint32 count READ count WRITE setCount NOTIFY countChanged FINAL)
    Q_PROPERTY(QByteArray data READ data WRITE setData NOTIFY dataChanged FINAL)
    Q_PROPERTY(QString note READ note WRITE setNote NOTIFY noteChanged FINAL)
    Q_PROPERTY(QString title READ title NOTIFY titleChanged FINAL)
    explicit Inner(bool owned, QObject *parent);
public:
    explicit Inner(QObject *parent = nullptr);
    ~Inner();
    QByteArray blob() const;
    void setBlob(const QByteArray& v);
    quint32 count() const;
    void setCount(quint32 v);
    QByteArray data() const;
    void setData(const QByteArray& v);
    QString note() const;
    void setNote(const QString& v);
    QString title() const;
    Q_INVOKABLE void clear();
    Q_INVOKABLE bool rename(const QString& to);
    Q_INVOKABLE quint64 size() const;
Q_SIGNALS:
    void blobChanged();
    void countChanged();
    void dataChanged();
    void noteChanged();
    void titleChanged();
};

class Outer : public QAbstractItemModel
{
    Q_OBJECT
public:
    class Private;
private:
    Inner* const m_inner;
    Private * m_d;
    bool m_ownsPrivate;
    Q_PROPERTY(Inner* inner READ inner NOTIFY innerChanged FINAL)
    Q_PROPERTY(QString name READ name NOTIFY nameChanged FINAL)
    explicit Outer(bool owned, QObject *parent);
public:
    explicit Outer(QObject *parent = nullptr);
    ~Outer();
    const Inner* inner() const;
    Inner* inner();
    QString name() const;

    int columnCount(const QModelIndex &parent = QModelIndex()) const override;
    QVariant data(const QModelIndex &index, int role = Qt::DisplayRole) const override;
    QModelIndex index(int row, int column, const QModelIndex &parent = QModelIndex()) const override;
    QModelIndex parent(const QModelIndex &index) const override;
    bool hasChildren(const QModelIndex &parent = QModelIndex()) const override;
    int rowCount(const QModelIndex &parent = QModelIndex()) const override;
    bool canFetchMore(const QModelIndex &parent) const override;
    void fetchMore(const QModelIndex &parent) override;
    Qt::ItemFlags flags(const QModelIndex &index) const override;
    void sort(int column, Qt::SortOrder order = Qt::AscendingOrder) override;
    int role(const char* name) const;
    QHash<int, QByteArray> roleNames() const override;
    QVariant headerData(int section, Qt::Orientation orientation, int role = Qt::DisplayRole) const override;
    bool setHeaderData(int section, Qt::Orientation orientation, const QVariant &value, int role = Qt::EditRole) override;
    Q_INVOKABLE bool insertRows(int row, int count, const QModelIndex &parent = QModelIndex()) override;
    Q_INVOKABLE bool removeRows(int row, int count, const QModelIndex &parent = QModelIndex()) override;
    bool setData(const QModelIndex &index, const QVariant &value, int role = Qt::EditRole) override;
    Q_INVOKABLE QByteArray icon(const QModelIndex& index) const;
    Q_INVOKABLE bool setIcon(const QModelIndex& index, const QByteArray& value);
    Q_INVOKABLE QString path(const QModelIndex& index) const;
    Q_INVOKABLE bool setPath(const QModelIndex& index, const QString& value);
    Q_INVOKABLE QByteArray raw(const QModelIndex& index) const;
    Q_INVOKABLE bool setRaw(const QModelIndex& index, const QByteArray& value);
    Q_INVOKABLE quint64 size(const QModelIndex& index) const;

Q_SIGNALS:
    // new data is ready to be made available to the model with fetchMore()
    void newDataReady(const QModelIndex &parent) const;
private:
    QHash<QPair<int,Qt::ItemDataRole>, QVariant> m_headerData;
    void initHeaderData();
    void updatePersistentIndexes();
Q_SIGNALS:
    void innerChanged();
    void nameChanged();
};
#endif // BINDINGS_H
";

const CPP: &str = "/* generated by rust_qt_binding_generator */
#include \"Bindings.h\"

namespace {

    struct option_quintptr {
    public:
        quintptr value;
        bool some;
        operator QVariant() const {
            if (some) {
                return QVariant::fromValue(value);
            }
            return QVariant();
        }
    };
    static_assert(std::is_pod<option_quintptr>::value, \"option_quintptr must be a POD type.\");

    typedef void (*qstring_set)(QString* val, const char* utf8, int nbytes);
    void set_qstring(QString* val, const char* utf8, int nbytes) {
        *val = QString::fromUtf8(utf8, nbytes);
    }

    typedef void (*qbytearray_set)(QByteArray* val, const char* bytes, int nbytes);
    void set_qbytearray(QByteArray* v, const char* bytes, int nbytes) {
        if (v->isNull() && nbytes == 0) {
            *v = QByteArray(bytes, nbytes);
        } else {
            v->truncate(0);
            v->append(bytes, nbytes);
        }
    }

    struct qmodelindex_t {
        int row;
        quintptr id;
    };
    inline QVariant cleanNullQVariant(const QVariant& v) {
        return (v.isNull()) ?QVariant() :v;
    }
    inline void innerBlobChanged(Inner* o)
    {
        Q_EMIT o->blobChanged();
    }
    inline void innerCountChanged(Inner* o)
    {
        Q_EMIT o->countChanged();
    }
    inline void innerDataChanged(Inner* o)
    {
        Q_EMIT o->dataChanged();
    }
    inline void innerNoteChanged(Inner* o)
    {
        Q_EMIT o->noteChanged();
    }
    inline void innerTitleChanged(Inner* o)
    {
        Q_EMIT o->titleChanged();
    }
    inline void outerNameChanged(Outer* o)
    {
        Q_EMIT o->nameChanged();
    }
}
extern \"C\" {
    Inner::Private* inner_new(Inner*, void (*)(Inner*), void (*)(Inner*), void (*)(Inner*), void (*)(Inner*), void (*)(Inner*));
    void inner_free(Inner::Private*);
    void inner_blob_get(const Inner::Private*, QByteArray*, qbytearray_set);
    void inner_blob_set(Inner::Private*, const char* bytes, int len);
    void inner_blob_set_none(Inner::Private*);
    quint32 inner_count_get(const Inner::Private*);
    void inner_count_set(Inner::Private*, quint32);
    void inner_data_get(const Inner::Private*, QByteArray*, qbytearray_set);
    void inner_data_set(Inner::Private*, const char* bytes, int len);
    void inner_note_get(const Inner::Private*, QString*, qstring_set);
    void inner_note_set(Inner::Private*, const ushort *str, int len);
    void inner_note_set_none(Inner::Private*);
    void inner_title_get(const Inner::Private*, QString*, qstring_set);
    void inner_clear(Inner::Private*);
    bool inner_rename(Inner::Private*, const ushort*, int);
    quint64 inner_size(const Inner::Private*);
};

extern \"C\" {
    void outer_data_icon(const Outer::Private*, quintptr, QByteArray*, qbytearray_set);
    bool outer_set_data_icon(Outer::Private*, quintptr, const char* s, int len);
    bool outer_set_data_icon_none(Outer::Private*, quintptr);
    void outer_data_path(const Outer::Private*, quintptr, QString*, qstring_set);
    bool outer_set_data_path(Outer::Private*, quintptr, const ushort* s, int len);
    bool outer_set_data_path_none(Outer::Private*, quintptr);
    void outer_data_raw(const Outer::Private*, quintptr, QByteArray*, qbytearray_set);
    bool outer_set_data_raw(Outer::Private*, quintptr, const char* s, int len);
    quint64 outer_data_size(const Outer::Private*, quintptr);
    void outer_sort(Outer::Private*, unsigned char column, Qt::SortOrder order = Qt::AscendingOrder);

    int outer_row_count(const Outer::Private*, option_quintptr);
    bool outer_can_fetch_more(const Outer::Private*, option_quintptr);
    void outer_fetch_more(Outer::Private*, option_quintptr);
    quintptr outer_index(const Outer::Private*, option_quintptr, int);
    qmodelindex_t outer_parent(const Outer::Private*, quintptr);
    int outer_row(const Outer::Private*, quintptr);
    option_quintptr outer_check_row(const Outer::Private*, quintptr, int);
}
int Outer::columnCount(const QModelIndex &) const
{
    return 2;
}

bool Outer::hasChildren(const QModelIndex &parent) const
{
    return rowCount(parent) > 0;
}

int Outer::rowCount(const QModelIndex &parent) const
{
    if (parent.isValid() && parent.column() != 0) {
        return 0;
    }
    const option_quintptr rust_parent = {
        parent.internalId(),
        parent.isValid()
    };
    return outer_row_count(m_d, rust_parent);
}

bool Outer::insertRows(int, int, const QModelIndex &)
{
    return false; // not supported yet
}

bool Outer::removeRows(int, int, const QModelIndex &)
{
    return false; // not supported yet
}

QModelIndex Outer::index(int row, int column, const QModelIndex &parent) const
{
    if (row < 0 || column < 0 || column >= 2) {
        return QModelIndex();
    }
    if (parent.isValid() && parent.column() != 0) {
        return QModelIndex();
    }
    if (row >= rowCount(parent)) {
        return QModelIndex();
    }
    const option_quintptr rust_parent = {
        parent.internalId(),
        parent.isValid()
    };
    const quintptr id = outer_index(m_d, rust_parent, row);
    return createIndex(row, column, id);
}

QModelIndex Outer::parent(const QModelIndex &index) const
{
    if (!index.isValid()) {
        return QModelIndex();
    }
    const qmodelindex_t parent = outer_parent(m_d, index.internalId());
    return parent.row >= 0 ?createIndex(parent.row, 0, parent.id) :QModelIndex();
}

bool Outer::canFetchMore(const QModelIndex &parent) const
{
    if (parent.isValid() && parent.column() != 0) {
        return false;
    }
    const option_quintptr rust_parent = {
        parent.internalId(),
        parent.isValid()
    };
    return outer_can_fetch_more(m_d, rust_parent);
}

void Outer::fetchMore(const QModelIndex &parent)
{
    const option_quintptr rust_parent = {
        parent.internalId(),
        parent.isValid()
    };
    outer_fetch_more(m_d, rust_parent);
}
void Outer::updatePersistentIndexes() {
    const auto from = persistentIndexList();
    auto to = from;
    auto len = to.size();
    for (int i = 0; i < len; ++i) {
        auto index = to.at(i);
        auto row = outer_check_row(m_d, index.internalId(), index.row());
        if (row.some) {
            to[i] = createIndex(row.value, index.column(), index.internalId());
        } else {
            to[i] = QModelIndex();
        }
    }
    changePersistentIndexList(from, to);
}

void Outer::sort(int column, Qt::SortOrder order)
{
    outer_sort(m_d, column, order);
}
Qt::ItemFlags Outer::flags(const QModelIndex &i) const
{
    auto flags = QAbstractItemModel::flags(i);
    if (i.column() == 0) {
        flags |= Qt::ItemIsEditable;
    }
    if (i.column() == 1) {
        flags |= Qt::ItemIsEditable;
    }
    return flags;
}

QByteArray Outer::icon(const QModelIndex& index) const
{
    QByteArray b;
    outer_data_icon(m_d, index.internalId(), &b, set_qbytearray);
    return b;
}

bool Outer::setIcon(const QModelIndex& index, const QByteArray& value)
{
    bool set = false;
    if (value.isNull()) {
        set = outer_set_data_icon_none(m_d, index.internalId());
    } else {
    set = outer_set_data_icon(m_d, index.internalId(), value.data(), value.length());
    }
    if (set) {
        Q_EMIT dataChanged(index, index);
    }
    return set;
}

QString Outer::path(const QModelIndex& index) const
{
    QString s;
    outer_data_path(m_d, index.internalId(), &s, set_qstring);
    return s;
}

bool Outer::setPath(const QModelIndex& index, const QString& value)
{
    bool set = false;
    if (value.isNull()) {
        set = outer_set_data_path_none(m_d, index.internalId());
    } else {
    set = outer_set_data_path(m_d, index.internalId(), value.utf16(), value.length());
    }
    if (set) {
        Q_EMIT dataChanged(index, index);
    }
    return set;
}

QByteArray Outer::raw(const QModelIndex& index) const
{
    QByteArray b;
    outer_data_raw(m_d, index.internalId(), &b, set_qbytearray);
    return b;
}

bool Outer::setRaw(const QModelIndex& index, const QByteArray& value)
{
    bool set = false;
    set = outer_set_data_raw(m_d, index.internalId(), value.data(), value.length());
    if (set) {
        Q_EMIT dataChanged(index, index);
    }
    return set;
}

quint64 Outer::size(const QModelIndex& index) const
{
    return outer_data_size(m_d, index.internalId());
}

QVariant Outer::data(const QModelIndex &index, int role) const
{
    Q_ASSERT(rowCount(index.parent()) > index.row());
    switch (index.column()) {
    case 0:
        switch (role) {
        case Qt::DecorationRole:
        case Qt::UserRole + 0:
            return cleanNullQVariant(QVariant::fromValue(icon(index)));
        case Qt::DisplayRole:
        case Qt::ToolTipRole:
        case Qt::UserRole + 1:
            return cleanNullQVariant(QVariant::fromValue(path(index)));
        case Qt::UserRole + 2:
            return QVariant::fromValue(raw(index));
        case Qt::UserRole + 3:
            return QVariant::fromValue(size(index));
        }
        break;
    case 1:
        switch (role) {
        case Qt::UserRole + 0:
            return cleanNullQVariant(QVariant::fromValue(icon(index)));
        case Qt::EditRole:
        case Qt::UserRole + 1:
            return cleanNullQVariant(QVariant::fromValue(path(index)));
        case Qt::UserRole + 2:
            return QVariant::fromValue(raw(index));
        case Qt::UserRole + 3:
            return QVariant::fromValue(size(index));
        }
        break;
    }
    return QVariant();
}

int Outer::role(const char* name) const {
    auto names = roleNames();
    auto i = names.constBegin();
    while (i != names.constEnd()) {
        if (i.value() == name) {
            return i.key();
        }
        ++i;
    }
    return -1;
}
QHash<int, QByteArray> Outer::roleNames() const {
    QHash<int, QByteArray> names = QAbstractItemModel::roleNames();
    names.insert(Qt::UserRole + 0, \"icon\");
    names.insert(Qt::UserRole + 1, \"path\");
    names.insert(Qt::UserRole + 2, \"raw\");
    names.insert(Qt::UserRole + 3, \"size\");
    return names;
}
QVariant Outer::headerData(int section, Qt::Orientation orientation, int role) const
{
    if (orientation != Qt::Horizontal) {
        return QVariant();
    }
    return m_headerData.value(qMakePair(section, (Qt::ItemDataRole)role), role == Qt::DisplayRole ?QString::number(section + 1) :QVariant());
}

bool Outer::setHeaderData(int section, Qt::Orientation orientation, const QVariant &value, int role)
{
    if (orientation != Qt::Horizontal) {
        return false;
    }
    m_headerData.insert(qMakePair(section, (Qt::ItemDataRole)role), value);
    return true;
}

bool Outer::setData(const QModelIndex &index, const QVariant &value, int role)
{
    if (index.column() == 0) {
        if (role == Qt::DecorationRole || role == Qt::UserRole + 0) {
            if (!value.isValid() || value.isNull() ||value.canConvert(qMetaTypeId<QByteArray>())) {
                return setIcon(index, value.value<QByteArray>());
            }
        }
        if (role == Qt::DisplayRole || role == Qt::ToolTipRole || role == Qt::UserRole + 1) {
            if (!value.isValid() || value.isNull() ||value.canConvert(qMetaTypeId<QString>())) {
                return setPath(index, value.value<QString>());
            }
        }
        if (role == Qt::UserRole + 2) {
            if (value.canConvert(qMetaTypeId<QByteArray>())) {
                return setRaw(index, value.value<QByteArray>());
            }
        }
    }
    if (index.column() == 1) {
        if (role == Qt::UserRole + 0) {
            if (!value.isValid() || value.isNull() ||value.canConvert(qMetaTypeId<QByteArray>())) {
                return setIcon(index, value.value<QByteArray>());
            }
        }
        if (role == Qt::EditRole || role == Qt::UserRole + 1) {
            if (!value.isValid() || value.isNull() ||value.canConvert(qMetaTypeId<QString>())) {
                return setPath(index, value.value<QString>());
            }
        }
        if (role == Qt::UserRole + 2) {
            if (value.canConvert(qMetaTypeId<QByteArray>())) {
                return setRaw(index, value.value<QByteArray>());
            }
        }
    }
    return false;
}

extern \"C\" {
    Outer::Private* outer_new(Outer*, Inner*, void (*)(Inner*), void (*)(Inner*), void (*)(Inner*), void (*)(Inner*), void (*)(Inner*), void (*)(Outer*),
        void (*)(const Outer*, option_quintptr),
        void (*)(Outer*),
        void (*)(Outer*),
        void (*)(Outer*, quintptr, quintptr),
        void (*)(Outer*),
        void (*)(Outer*),
        void (*)(Outer*, option_quintptr, int, int),
        void (*)(Outer*),
        void (*)(Outer*, option_quintptr, int, int, option_quintptr, int),
        void (*)(Outer*),
        void (*)(Outer*, option_quintptr, int, int),
        void (*)(Outer*));
    void outer_free(Outer::Private*);
    Inner::Private* outer_inner_get(const Outer::Private*);
    void outer_name_get(const Outer::Private*, QString*, qstring_set);
};

Inner::Inner(bool /*owned*/, QObject *parent):
    QObject(parent),
    m_d(nullptr),
    m_ownsPrivate(false)
{
}

Inner::Inner(QObject *parent):
    QObject(parent),
    m_d(inner_new(this,
        innerBlobChanged,
        innerCountChanged,
        innerDataChanged,
        innerNoteChanged,
        innerTitleChanged)),
    m_ownsPrivate(true)
{
}

Inner::~Inner() {
    if (m_ownsPrivate) {
        inner_free(m_d);
    }
}
QByteArray Inner::blob() const
{
    QByteArray v;
    inner_blob_get(m_d, &v, set_qbytearray);
    return v;
}
void Inner::setBlob(const QByteArray& v) {
    if (v.isNull()) {
        inner_blob_set_none(m_d);
    } else {
    inner_blob_set(m_d, v.data(), v.size());
    }
}
quint32 Inner::count() const
{
    return inner_count_get(m_d);
}
void Inner::setCount(quint32 v) {
    inner_count_set(m_d, v);
}
QByteArray Inner::data() const
{
    QByteArray v;
    inner_data_get(m_d, &v, set_qbytearray);
    return v;
}
void Inner::setData(const QByteArray& v) {
    inner_data_set(m_d, v.data(), v.size());
}
QString Inner::note() const
{
    QString v;
    inner_note_get(m_d, &v, set_qstring);
    return v;
}
void Inner::setNote(const QString& v) {
    if (v.isNull()) {
        inner_note_set_none(m_d);
    } else {
    inner_note_set(m_d, reinterpret_cast<const ushort*>(v.data()), v.size());
    }
}
QString Inner::title() const
{
    QString v;
    inner_title_get(m_d, &v, set_qstring);
    return v;
}
void Inner::clear()
{
    return inner_clear(m_d);
}
bool Inner::rename(const QString& to)
{
    return inner_rename(m_d, to.utf16(), to.size());
}
quint64 Inner::size() const
{
    return inner_size(m_d);
}
Outer::Outer(bool /*owned*/, QObject *parent):
    QAbstractItemModel(parent),
    m_inner(new Inner(false, this)),
    m_d(nullptr),
    m_ownsPrivate(false)
{
    initHeaderData();
}

Outer::Outer(QObject *parent):
    QAbstractItemModel(parent),
    m_inner(new Inner(false, this)),
    m_d(outer_new(this, m_inner,
        innerBlobChanged,
        innerCountChanged,
        innerDataChanged,
        innerNoteChanged,
        innerTitleChanged,
        outerNameChanged,
        [](const Outer* o, option_quintptr id) {
            if (id.some) {
                int row = outer_row(o->m_d, id.value);
                Q_EMIT o->newDataReady(o->createIndex(row, 0, id.value));
            } else {
                Q_EMIT o->newDataReady(QModelIndex());
            }
        },
        [](Outer* o) {
            Q_EMIT o->layoutAboutToBeChanged();
        },
        [](Outer* o) {
            o->updatePersistentIndexes();
            Q_EMIT o->layoutChanged();
        },
        [](Outer* o, quintptr first, quintptr last) {
            quintptr frow = outer_row(o->m_d, first);
            quintptr lrow = outer_row(o->m_d, last);
            o->dataChanged(o->createIndex(frow, 0, first),
                       o->createIndex(lrow, 1, last));
        },
        [](Outer* o) {
            o->beginResetModel();
        },
        [](Outer* o) {
            o->endResetModel();
        },
        [](Outer* o, option_quintptr id, int first, int last) {
            if (id.some) {
                int row = outer_row(o->m_d, id.value);
                o->beginInsertRows(o->createIndex(row, 0, id.value), first, last);
            } else {
                o->beginInsertRows(QModelIndex(), first, last);
            }
        },
        [](Outer* o) {
            o->endInsertRows();
        },
        [](Outer* o, option_quintptr sourceParent, int first, int last, option_quintptr destinationParent, int destination) {
            QModelIndex s;
            if (sourceParent.some) {
                int row = outer_row(o->m_d, sourceParent.value);
                s = o->createIndex(row, 0, sourceParent.value);
            }
            QModelIndex d;
            if (destinationParent.some) {
                int row = outer_row(o->m_d, destinationParent.value);
                d = o->createIndex(row, 0, destinationParent.value);
            }
            o->beginMoveRows(s, first, last, d, destination);
        },
        [](Outer* o) {
            o->endMoveRows();
        },
        [](Outer* o, option_quintptr id, int first, int last) {
            if (id.some) {
                int row = outer_row(o->m_d, id.value);
                o->beginRemoveRows(o->createIndex(row, 0, id.value), first, last);
            } else {
                o->beginRemoveRows(QModelIndex(), first, last);
            }
        },
        [](Outer* o) {
            o->endRemoveRows();
        }
)),
    m_ownsPrivate(true)
{
    m_inner->m_d = outer_inner_get(m_d);
    connect(this, &Outer::newDataReady, this, [this](const QModelIndex& i) {
        this->fetchMore(i);
    }, Qt::QueuedConnection);
    initHeaderData();
}

Outer::~Outer() {
    if (m_ownsPrivate) {
        outer_free(m_d);
    }
}
void Outer::initHeaderData() {
    m_headerData.insert(qMakePair(0, Qt::DisplayRole), QVariant(\"path\"));
}
const Inner* Outer::inner() const
{
    return m_inner;
}
Inner* Outer::inner()
{
    return m_inner;
}
QString Outer::name() const
{
    QString v;
    outer_name_get(m_d, &v, set_qstring);
    return v;
}
extern \"C\" {
    void qmetaobject__invokeMethod__0(QObject *obj, const char *member) {
        QMetaObject::invokeMethod(obj, member);
    }
}
";

const INTERFACE: &str = "/* generated by rust_qt_binding_generator */
use libc::{c_char, c_ushort, c_int};
use std::slice;
use std::char::decode_utf16;

use std::sync::Arc;
use std::sync::atomic::{AtomicPtr, Ordering};
use std::ptr::null;

use crate::implementation::*;


#[repr(C)]
pub struct COption<T> {
    data: T,
    some: bool,
}

impl<T> COption<T> {
    #![allow(dead_code)]
    fn into(self) -> Option<T> {
        if self.some {
            Some(self.data)
        } else {
            None
        }
    }
}

impl<T> From<Option<T>> for COption<T>
where
    T: Default,
{
    fn from(t: Option<T>) -> COption<T> {
        if let Some(v) = t {
            COption {
                data: v,
                some: true,
            }
        } else {
            COption {
                data: T::default(),
                some: false,
            }
        }
    }
}


pub enum QString {}

fn set_string_from_utf16(s: &mut String, str: *const c_ushort, len: c_int) {
    let utf16 = unsafe { slice::from_raw_parts(str, to_usize(len)) };
    let characters = decode_utf16(utf16.iter().cloned())
        .map(|r| r.unwrap());
    s.clear();
    s.extend(characters);
}



pub enum QByteArray {}


#[repr(C)]
#[derive(PartialEq, Eq, Debug)]
pub enum SortOrder {
    Ascending = 0,
    Descending = 1,
}

#[repr(C)]
pub struct QModelIndex {
    row: c_int,
    internal_id: usize,
}


fn to_usize(n: c_int) -> usize {
    if n < 0 {
        panic!(\"Cannot cast {} to usize\", n);
    }
    n as usize
}


fn to_c_int(n: usize) -> c_int {
    if n > c_int::max_value() as usize {
        panic!(\"Cannot cast {} to c_int\", n);
    }
    n as c_int
}


pub struct InnerQObject {}

pub struct InnerEmitter {
    qobject: Arc<AtomicPtr<InnerQObject>>,
    blob_changed: fn(*mut InnerQObject),
    count_changed: fn(*mut InnerQObject),
    data_changed: fn(*mut InnerQObject),
    note_changed: fn(*mut InnerQObject),
    title_changed: fn(*mut InnerQObject),
}

unsafe impl Send for InnerEmitter {}

impl InnerEmitter {
    /// Clone the emitter
    ///
    /// The emitter can only be cloned when it is mutable. The emitter calls
    /// into C++ code which may call into Rust again. If emmitting is possible
    /// from immutable structures, that might lead to access to a mutable
    /// reference. That is undefined behaviour and forbidden.
    pub fn clone(&mut self) -> InnerEmitter {
        InnerEmitter {
            qobject: self.qobject.clone(),
            blob_changed: self.blob_changed,
            count_changed: self.count_changed,
            data_changed: self.data_changed,
            note_changed: self.note_changed,
            title_changed: self.title_changed,
        }
    }
    fn clear(&self) {
        let n: *const InnerQObject = null();
        self.qobject.store(n as *mut InnerQObject, Ordering::SeqCst);
    }
    pub fn blob_changed(&mut self) {
        let ptr = self.qobject.load(Ordering::SeqCst);
        if !ptr.is_null() {
            (self.blob_changed)(ptr);
        }
    }
    pub fn count_changed(&mut self) {
        let ptr = self.qobject.load(Ordering::SeqCst);
        if !ptr.is_null() {
            (self.count_changed)(ptr);
        }
    }
    pub fn data_changed(&mut self) {
        let ptr = self.qobject.load(Ordering::SeqCst);
        if !ptr.is_null() {
            (self.data_changed)(ptr);
        }
    }
    pub fn note_changed(&mut self) {
        let ptr = self.qobject.load(Ordering::SeqCst);
        if !ptr.is_null() {
            (self.note_changed)(ptr);
        }
    }
    pub fn title_changed(&mut self) {
        let ptr = self.qobject.load(Ordering::SeqCst);
        if !ptr.is_null() {
            (self.title_changed)(ptr);
        }
    }
}

pub trait InnerTrait {
    fn new(emit: InnerEmitter) -> Self;
    fn emit(&mut self) -> &mut InnerEmitter;
    fn blob(&self) -> Option<&[u8]>;
    fn set_blob(&mut self, value: Option<&[u8]>);
    fn count(&self) -> u32;
    fn set_count(&mut self, value: u32);
    fn data(&self) -> &[u8];
    fn set_data(&mut self, value: &[u8]);
    fn note(&self) -> Option<&str>;
    fn set_note(&mut self, value: Option<String>);
    fn title<F>(&self, getter: F) where F: FnOnce(&str);    fn clear(&mut self) -> ();
    fn rename(&mut self, to: String) -> bool;
    fn size(&self) -> u64;
}

#[no_mangle]
pub extern \"C\" fn inner_new(
    inner: *mut InnerQObject,
    inner_blob_changed: fn(*mut InnerQObject),
    inner_count_changed: fn(*mut InnerQObject),
    inner_data_changed: fn(*mut InnerQObject),
    inner_note_changed: fn(*mut InnerQObject),
    inner_title_changed: fn(*mut InnerQObject),
) -> *mut Inner {
    let inner_emit = InnerEmitter {
        qobject: Arc::new(AtomicPtr::new(inner)),
        blob_changed: inner_blob_changed,
        count_changed: inner_count_changed,
        data_changed: inner_data_changed,
        note_changed: inner_note_changed,
        title_changed: inner_title_changed,
    };
    let d_inner = Inner::new(inner_emit);
    Box::into_raw(Box::new(d_inner))
}

#[no_mangle]
pub unsafe extern \"C\" fn inner_free(ptr: *mut Inner) {
    Box::from_raw(ptr).emit().clear();
}

#[no_mangle]
pub unsafe extern \"C\" fn inner_blob_get(
    ptr: *const Inner,
    p: *mut QByteArray,
    set: fn(*mut QByteArray, *const c_char, c_int),
) {
    let o = &*ptr;
    let v = o.blob();
    if let Some(v) = v {
        let s: *const c_char = v.as_ptr() as (*const c_char);
        set(p, s, to_c_int(v.len()));
    }
}

#[no_mangle]
pub unsafe extern \"C\" fn inner_blob_set(ptr: *mut Inner, v: *const c_char, len: c_int) {
    let o = &mut *ptr;
    let v = slice::from_raw_parts(v as *const u8, to_usize(len));
    o.set_blob(Some(v.into()));
}

#[no_mangle]
pub unsafe extern \"C\" fn inner_blob_set_none(ptr: *mut Inner) {
    let o = &mut *ptr;
    o.set_blob(None);
}

#[no_mangle]
pub unsafe extern \"C\" fn inner_count_get(ptr: *const Inner) -> u32 {
    (&*ptr).count()
}

#[no_mangle]
pub unsafe extern \"C\" fn inner_count_set(ptr: *mut Inner, v: u32) {
    (&mut *ptr).set_count(v);
}

#[no_mangle]
pub unsafe extern \"C\" fn inner_data_get(
    ptr: *const Inner,
    p: *mut QByteArray,
    set: fn(*mut QByteArray, *const c_char, c_int),
) {
    let o = &*ptr;
    let v = o.data();
    let s: *const c_char = v.as_ptr() as (*const c_char);
    set(p, s, to_c_int(v.len()));
}

#[no_mangle]
pub unsafe extern \"C\" fn inner_data_set(ptr: *mut Inner, v: *const c_char, len: c_int) {
    let o = &mut *ptr;
    let v = slice::from_raw_parts(v as *const u8, to_usize(len));
    o.set_data(v);
}

#[no_mangle]
pub unsafe extern \"C\" fn inner_note_get(
    ptr: *const Inner,
    p: *mut QString,
    set: fn(*mut QString, *const c_char, c_int),
) {
    let o = &*ptr;
    let v = o.note();
    if let Some(v) = v {
        let s: *const c_char = v.as_ptr() as (*const c_char);
        set(p, s, to_c_int(v.len()));
    }
}

#[no_mangle]
pub unsafe extern \"C\" fn inner_note_set(ptr: *mut Inner, v: *const c_ushort, len: c_int) {
    let o = &mut *ptr;
    let mut s = String::new();
    set_string_from_utf16(&mut s, v, len);
    o.set_note(Some(s));
}

#[no_mangle]
pub unsafe extern \"C\" fn inner_note_set_none(ptr: *mut Inner) {
    let o = &mut *ptr;
    o.set_note(None);
}

#[no_mangle]
pub unsafe extern \"C\" fn inner_title_get(
    ptr: *const Inner,
    p: *mut QString,
    set: fn(*mut QString, *const c_char, c_int),
) {
    let o = &*ptr;
    o.title(|v| {
        let s: *const c_char = v.as_ptr() as (*const c_char);
        set(p, s, to_c_int(v.len()));
    });
}

#[no_mangle]
pub unsafe extern \"C\" fn inner_clear(ptr: *mut Inner) {
    let o = &mut *ptr;
    o.clear()
}

#[no_mangle]
pub unsafe extern \"C\" fn inner_rename(ptr: *mut Inner, to_str: *const c_ushort, to_len: c_int) -> bool {
    let mut to = String::new();
    set_string_from_utf16(&mut to, to_str, to_len);
    let o = &mut *ptr;
    o.rename(to)
}

#[no_mangle]
pub unsafe extern \"C\" fn inner_size(ptr: *const Inner) -> u64 {
    let o = &*ptr;
    o.size()
}

pub struct OuterQObject {}

pub struct OuterEmitter {
    qobject: Arc<AtomicPtr<OuterQObject>>,
    name_changed: fn(*mut OuterQObject),
    new_data_ready: fn(*mut OuterQObject, index: COption<usize>),
}

unsafe impl Send for OuterEmitter {}

impl OuterEmitter {
    /// Clone the emitter
    ///
    /// The emitter can only be cloned when it is mutable. The emitter calls
    /// into C++ code which may call into Rust again. If emmitting is possible
    /// from immutable structures, that might lead to access to a mutable
    /// reference. That is undefined behaviour and forbidden.
    pub fn clone(&mut self) -> OuterEmitter {
        OuterEmitter {
            qobject: self.qobject.clone(),
            name_changed: self.name_changed,
            new_data_ready: self.new_data_ready,
        }
    }
    fn clear(&self) {
        let n: *const OuterQObject = null();
        self.qobject.store(n as *mut OuterQObject, Ordering::SeqCst);
    }
    pub fn name_changed(&mut self) {
        let ptr = self.qobject.load(Ordering::SeqCst);
        if !ptr.is_null() {
            (self.name_changed)(ptr);
        }
    }
    pub fn new_data_ready(&mut self, item: Option<usize>) {
        let ptr = self.qobject.load(Ordering::SeqCst);
        if !ptr.is_null() {
            (self.new_data_ready)(ptr, item.into());
        }
    }
}

#[derive(Clone)]
pub struct OuterTree {
    qobject: *mut OuterQObject,
    layout_about_to_be_changed: fn(*mut OuterQObject),
    layout_changed: fn(*mut OuterQObject),
    data_changed: fn(*mut OuterQObject, usize, usize),
    begin_reset_model: fn(*mut OuterQObject),
    end_reset_model: fn(*mut OuterQObject),
    begin_insert_rows: fn(*mut OuterQObject, index: COption<usize>, usize, usize),
    end_insert_rows: fn(*mut OuterQObject),
    begin_move_rows: fn(*mut OuterQObject, index: COption<usize>, usize, usize, dest: COption<usize>, usize),
    end_move_rows: fn(*mut OuterQObject),
    begin_remove_rows: fn(*mut OuterQObject, index: COption<usize>, usize, usize),
    end_remove_rows: fn(*mut OuterQObject),
}

impl OuterTree {
    pub fn layout_about_to_be_changed(&mut self) {
        (self.layout_about_to_be_changed)(self.qobject);
    }
    pub fn layout_changed(&mut self) {
        (self.layout_changed)(self.qobject);
    }
    pub fn data_changed(&mut self, first: usize, last: usize) {
        (self.data_changed)(self.qobject, first, last);
    }
    pub fn begin_reset_model(&mut self) {
        (self.begin_reset_model)(self.qobject);
    }
    pub fn end_reset_model(&mut self) {
        (self.end_reset_model)(self.qobject);
    }
    pub fn begin_insert_rows(&mut self, index: Option<usize>, first: usize, last: usize) {
        (self.begin_insert_rows)(self.qobject, index.into(), first, last);
    }
    pub fn end_insert_rows(&mut self) {
        (self.end_insert_rows)(self.qobject);
    }
    pub fn begin_move_rows(&mut self, index: Option<usize>, first: usize, last: usize, dest: Option<usize>, destination: usize) {
        (self.begin_move_rows)(self.qobject, index.into(), first, last, dest.into(), destination);
    }
    pub fn end_move_rows(&mut self) {
        (self.end_move_rows)(self.qobject);
    }
    pub fn begin_remove_rows(&mut self, index: Option<usize>, first: usize, last: usize) {
        (self.begin_remove_rows)(self.qobject, index.into(), first, last);
    }
    pub fn end_remove_rows(&mut self) {
        (self.end_remove_rows)(self.qobject);
    }
}

pub trait OuterTrait {
    fn new(emit: OuterEmitter, model: OuterTree,
        inner: Inner) -> Self;
    fn emit(&mut self) -> &mut OuterEmitter;
    fn inner(&self) -> &Inner;
    fn inner_mut(&mut self) -> &mut Inner;
    fn name(&self) -> &str;
    fn row_count(&self, _: Option<usize>) -> usize;
    fn can_fetch_more(&self, _: Option<usize>) -> bool {
        false
    }
    fn fetch_more(&mut self, _: Option<usize>) {}
    fn sort(&mut self, _: u8, _: SortOrder) {}
    fn check_row(&self, index: usize, row: usize) -> Option<usize>;
    fn index(&self, item: Option<usize>, row: usize) -> usize;
    fn parent(&self, index: usize) -> Option<usize>;
    fn row(&self, index: usize) -> usize;
    fn icon(&self, index: usize) -> Option<Vec<u8>>;
    fn set_icon(&mut self, index: usize, _: Option<&[u8]>) -> bool;
    fn path(&self, index: usize) -> Option<&str>;
    fn set_path(&mut self, index: usize, _: Option<String>) -> bool;
    fn raw(&self, index: usize) -> &[u8];
    fn set_raw(&mut self, index: usize, _: &[u8]) -> bool;
    fn size(&self, index: usize) -> u64;
}

#[no_mangle]
pub extern \"C\" fn outer_new(
    outer: *mut OuterQObject,
    inner: *mut InnerQObject,
    inner_blob_changed: fn(*mut InnerQObject),
    inner_count_changed: fn(*mut InnerQObject),
    inner_data_changed: fn(*mut InnerQObject),
    inner_note_changed: fn(*mut InnerQObject),
    inner_title_changed: fn(*mut InnerQObject),
    outer_name_changed: fn(*mut OuterQObject),
    outer_new_data_ready: fn(*mut OuterQObject, index: COption<usize>),
    outer_layout_about_to_be_changed: fn(*mut OuterQObject),
    outer_layout_changed: fn(*mut OuterQObject),
    outer_data_changed: fn(*mut OuterQObject, usize, usize),
    outer_begin_reset_model: fn(*mut OuterQObject),
    outer_end_reset_model: fn(*mut OuterQObject),
    outer_begin_insert_rows: fn(*mut OuterQObject, index: COption<usize>, usize, usize),
    outer_end_insert_rows: fn(*mut OuterQObject),
    outer_begin_move_rows: fn(*mut OuterQObject, index: COption<usize>, usize, usize, index: COption<usize>, usize),
    outer_end_move_rows: fn(*mut OuterQObject),
    outer_begin_remove_rows: fn(*mut OuterQObject, index: COption<usize>, usize, usize),
    outer_end_remove_rows: fn(*mut OuterQObject),
) -> *mut Outer {
    let inner_emit = InnerEmitter {
        qobject: Arc::new(AtomicPtr::new(inner)),
        blob_changed: inner_blob_changed,
        count_changed: inner_count_changed,
        data_changed: inner_data_changed,
        note_changed: inner_note_changed,
        title_changed: inner_title_changed,
    };
    let d_inner = Inner::new(inner_emit);
    let outer_emit = OuterEmitter {
        qobject: Arc::new(AtomicPtr::new(outer)),
        name_changed: outer_name_changed,
        new_data_ready: outer_new_data_ready,
    };
    let model = OuterTree {
        qobject: outer,
        layout_about_to_be_changed: outer_layout_about_to_be_changed,
        layout_changed: outer_layout_changed,
        data_changed: outer_data_changed,
        begin_reset_model: outer_begin_reset_model,
        end_reset_model: outer_end_reset_model,
        begin_insert_rows: outer_begin_insert_rows,
        end_insert_rows: outer_end_insert_rows,
        begin_move_rows: outer_begin_move_rows,
        end_move_rows: outer_end_move_rows,
        begin_remove_rows: outer_begin_remove_rows,
        end_remove_rows: outer_end_remove_rows,
    };
    let d_outer = Outer::new(outer_emit, model,
        d_inner);
    Box::into_raw(Box::new(d_outer))
}

#[no_mangle]
pub unsafe extern \"C\" fn outer_free(ptr: *mut Outer) {
    Box::from_raw(ptr).emit().clear();
}

#[no_mangle]
pub unsafe extern \"C\" fn outer_inner_get(ptr: *mut Outer) -> *mut Inner {
    (&mut *ptr).inner_mut()
}

#[no_mangle]
pub unsafe extern \"C\" fn outer_name_get(
    ptr: *const Outer,
    p: *mut QString,
    set: fn(*mut QString, *const c_char, c_int),
) {
    let o = &*ptr;
    let v = o.name();
    let s: *const c_char = v.as_ptr() as (*const c_char);
    set(p, s, to_c_int(v.len()));
}

#[no_mangle]
pub unsafe extern \"C\" fn outer_row_count(
    ptr: *const Outer,
    index: COption<usize>,
) -> c_int {
    to_c_int((&*ptr).row_count(index.into()))
}
#[no_mangle]
pub unsafe extern \"C\" fn outer_can_fetch_more(
    ptr: *const Outer,
    index: COption<usize>,
) -> bool {
    (&*ptr).can_fetch_more(index.into())
}
#[no_mangle]
pub unsafe extern \"C\" fn outer_fetch_more(ptr: *mut Outer, index: COption<usize>) {
    (&mut *ptr).fetch_more(index.into())
}
#[no_mangle]
pub unsafe extern \"C\" fn outer_sort(
    ptr: *mut Outer,
    column: u8,
    order: SortOrder
) {
    (&mut *ptr).sort(column, order)
}
#[no_mangle]
pub unsafe extern \"C\" fn outer_check_row(
    ptr: *const Outer,
    index: usize,
    row: c_int,
) -> COption<usize> {
    (&*ptr).check_row(index, to_usize(row)).into()
}
#[no_mangle]
pub unsafe extern \"C\" fn outer_index(
    ptr: *const Outer,
    index: COption<usize>,
    row: c_int,
) -> usize {
    (&*ptr).index(index.into(), to_usize(row))
}
#[no_mangle]
pub unsafe extern \"C\" fn outer_parent(ptr: *const Outer, index: usize) -> QModelIndex {
    if let Some(parent) = (&*ptr).parent(index) {
        QModelIndex {
            row: to_c_int((&*ptr).row(parent)),
            internal_id: parent,
        }
    } else {
        QModelIndex {
            row: -1,
            internal_id: 0,
        }
    }
}
#[no_mangle]
pub unsafe extern \"C\" fn outer_row(ptr: *const Outer, index: usize) -> c_int {
    to_c_int((&*ptr).row(index))
}

#[no_mangle]
pub unsafe extern \"C\" fn outer_data_icon(
    ptr: *const Outer, index: usize,
    d: *mut QByteArray,
    set: fn(*mut QByteArray, *const c_char, len: c_int),
) {
    let o = &*ptr;
    let data = o.icon(index);
    if let Some(data) = data {
        let s: *const c_char = data.as_ptr() as (*const c_char);
        set(d, s, to_c_int(data.len()));
    }
}

#[no_mangle]
pub unsafe extern \"C\" fn outer_set_data_icon(
    ptr: *mut Outer, index: usize,
    s: *const c_char, len: c_int,
) -> bool {
    let o = &mut *ptr;
    let slice = ::std::slice::from_raw_parts(s as *const u8, to_usize(len));
    o.set_icon(index, Some(slice))
}

#[no_mangle]
pub unsafe extern \"C\" fn outer_set_data_icon_none(ptr: *mut Outer, index: usize) -> bool {
    (&mut *ptr).set_icon(index, None)
}

#[no_mangle]
pub unsafe extern \"C\" fn outer_data_path(
    ptr: *const Outer, index: usize,
    d: *mut QString,
    set: fn(*mut QString, *const c_char, len: c_int),
) {
    let o = &*ptr;
    let data = o.path(index);
    if let Some(data) = data {
        let s: *const c_char = data.as_ptr() as (*const c_char);
        set(d, s, to_c_int(data.len()));
    }
}

#[no_mangle]
pub unsafe extern \"C\" fn outer_set_data_path(
    ptr: *mut Outer, index: usize,
    s: *const c_ushort, len: c_int,
) -> bool {
    let o = &mut *ptr;
    let mut v = String::new();
    set_string_from_utf16(&mut v, s, len);
    o.set_path(index, Some(v))
}

#[no_mangle]
pub unsafe extern \"C\" fn outer_set_data_path_none(ptr: *mut Outer, index: usize) -> bool {
    (&mut *ptr).set_path(index, None)
}

#[no_mangle]
pub unsafe extern \"C\" fn outer_data_raw(
    ptr: *const Outer, index: usize,
    d: *mut QByteArray,
    set: fn(*mut QByteArray, *const c_char, len: c_int),
) {
    let o = &*ptr;
    let data = o.raw(index);
    let s: *const c_char = data.as_ptr() as (*const c_char);
    set(d, s, to_c_int(data.len()));
}

#[no_mangle]
pub unsafe extern \"C\" fn outer_set_data_raw(
    ptr: *mut Outer, index: usize,
    s: *const c_char, len: c_int,
) -> bool {
    let o = &mut *ptr;
    let slice = ::std::slice::from_raw_parts(s as *const u8, to_usize(len));
    o.set_raw(index, slice)
}

#[no_mangle]
pub unsafe extern \"C\" fn outer_data_size(ptr: *const Outer, index: usize) -> u64 {
    let o = &*ptr;
    o.size(index)
}
";

const IMPLEMENTATION: &str = "#![allow(unused_imports)]
#![allow(unused_variables)]
#![allow(dead_code)]
use crate::interface::*;

pub struct Inner {
    emit: InnerEmitter,
    blob: Option<Vec<u8>>,
    count: u32,
    data: Vec<u8>,
    note: Option<String>,
    title: String,
}

impl InnerTrait for Inner {
    fn new(emit: InnerEmitter) -> Inner {
        Inner {
            emit,
            blob: None,
            count: 0,
            data: Vec::new(),
            note: None,
            title: String::new(),
        }
    }
    fn emit(&mut self) -> &mut InnerEmitter {
        &self.emit
    }
    fn blob(&self) -> Option<&[u8]> {
        self.blob.as_ref().map(|p| &p[..])
    }
    fn set_blob(&mut self, value: Option<&[u8]>) {
        self.blob = value.map(|v| v.to_vec());
        self.emit.blob_changed();
    }
    fn count(&self) -> u32 {
        self.count
    }
    fn set_count(&mut self, value: u32) {
        self.count = value;
        self.emit.count_changed();
    }
    fn data(&self) -> &[u8] {
        &self.data
    }
    fn set_data(&mut self, value: &[u8]) {
        self.data = value.to_vec();
        self.emit.data_changed();
    }
    fn note(&self) -> Option<&str> {
        self.note.as_ref().map(|p| &p[..])
    }
    fn set_note(&mut self, value: Option<String>) {
        self.note = value;
        self.emit.note_changed();
    }
    fn title<F>(&self, getter: F)
    where
        F: FnOnce(&str),
    {
        getter(&self.title)
    }
}
#[derive(Default, Clone)]
struct OuterItem {
    icon: Option<Vec<u8>>,
    path: Option<String>,
    raw: Vec<u8>,
    size: u64,
}

pub struct Outer {
    emit: OuterEmitter,
    model: OuterTree,
    inner: Inner,
    name: String,
    list: Vec<OuterItem>,
}

impl OuterTrait for Outer {
    fn new(emit: OuterEmitter, model: OuterTree, inner: Inner) -> Outer {
        Outer {
            emit,
            model,
            list: Vec::new(),
            inner,
            name: String::new(),
        }
    }
    fn emit(&mut self) -> &mut OuterEmitter {
        &self.emit
    }
    fn inner(&self) -> &Inner {
        &self.inner
    }
    fn inner_mut(&mut self) -> &mut Inner {
        &mut self.inner
    }
    fn name(&self) -> &str {
        &self.name
    }
    fn row_count(&self, item: Option<usize>) -> usize {
        self.list.len()
    }
    fn index(&self, item: Option<usize>, row: usize) -> usize {
        0
    }
    fn parent(&self, index: usize) -> Option<usize> {
        None
    }
    fn row(&self, index: usize) -> usize {
        index
    }
    fn check_row(&self, index: usize, _row: usize) -> Option<usize> {
        if index < self.list.len() {
            Some(index)
        } else {
            None
        }
    }
    fn icon(&self, index: usize) -> Option<Vec<u8>> {
        self.list[index].icon.as_ref().map(|v| &v[..])
    }
    fn set_icon(&mut self, index: usize, v: Option<&[u8]>) -> bool {
        self.list[index].icon = v.map(|v| v.to_vec());
        true
    }
    fn path(&self, index: usize) -> Option<&str> {
        self.list[index].path.as_ref().map(|v| &v[..])
    }
    fn set_path(&mut self, index: usize, v: Option<String>) -> bool {
        self.list[index].path = v;
        true
    }
    fn raw(&self, index: usize) -> &[u8] {
        &self.list[index].raw
    }
    fn set_raw(&mut self, index: usize, v: &[u8]) -> bool {
        self.list[index].raw = v.to_vec();
        true
    }
    fn size(&self, index: usize) -> u64 {
        self.list[index].size
    }
}
";
