//! The C++ code that is written, in pieces. In a piece `$0` to `$9` mark
//! where names and types are put in.
use vstd::prelude::*;

verus! {

pub const MEMBER_ZERO: &'static str = "    m_$0(new $1(false, this)),
";

pub const MEMBER_INIT: &'static str = "    $0m_$1->m_d = $2_$3_get($0m_d);
";

pub const MEMBER_PREFIX: &'static str = "m_$0->";

pub const CONNECT_PATH: &'static str = "$0->m_$1";

pub const CONNECT_MODEL: &'static str = "    connect($0, &$1::newDataReady, $0, [this](const QModelIndex& i) {
        $0->fetchMore(i);
    }, Qt::QueuedConnection);
";

pub const PROPERTY_OBJECT: &'static str = "const $0* $1::$2() const
{
    return m_$2;
}
$0* $1::$2()
{
    return m_$2;
}
";

pub const PROPERTY_COMPLEX: &'static str = "$0 $1::$2() const
{
    $0 v;
    $3_get(m_d, &v, set_$4);
    return v;
}
";

pub const PROPERTY_OPTIONAL: &'static str = "QVariant $0::$1() const
{
    QVariant v;
    auto r = $2_get(m_d);
    if (r.some) {
        v.setValue(r.value);
    }
    return r;
}
";

pub const PROPERTY_VALUE: &'static str = "$0 $1::$2() const
{
    return $3_get(m_d);
}
";

pub const SETTER_OPEN: &'static str = "void $0::set$1($2 v) {
";

pub const SETTER_IF_NULL: &'static str = "    if (v.isNull()) {
";

pub const SETTER_IF_NULL_OR_WRONG: &'static str = "    if (v.isNull() || !v.canConvert<$0>()) {
";

pub const SETTER_NONE: &'static str = "        $0_set_none(m_d);
";

pub const SETTER_ELSE: &'static str = "    } else {
";

pub const SETTER_STRING: &'static str = "    $0_set(m_d, reinterpret_cast<const ushort*>(v.data()), v.size());
";

pub const SETTER_BYTES: &'static str = "    $0_set(m_d, v.data(), v.size());
";

pub const SETTER_OPTIONAL_VALUE: &'static str = "        $0_set(m_d, v.value<$1>());
";

pub const SETTER_END_IF: &'static str = "    }
";

pub const SETTER_PLAIN_STRING: &'static str = "    $0_set(m_d, reinterpret_cast<const ushort*>(v.data()), v.size());
";

pub const SETTER_PLAIN_BYTES: &'static str = "    $0_set(m_d, v.data(), v.size());
";

pub const SETTER_VALUE: &'static str = "    $0_set(m_d, v);
";

pub const BLOCK_CLOSE: &'static str = "}
";

pub const CONSTRUCTOR_UNOWNED: &'static str = "$0::$0(bool /*owned*/, QObject *parent):
    $1(parent),
";

pub const MEMBERS_UNOWNED: &'static str = "    m_d(nullptr),
    m_ownsPrivate(false)
{
";

pub const INIT_HEADER_DATA_CALL: &'static str = "    initHeaderData();
";

pub const CONSTRUCTOR_OWNED: &'static str = "}

$0::$0(QObject *parent):
    $1(parent),
";

pub const NEW_CALL: &'static str = "    m_d($0_new(this";

pub const MEMBERS_OWNED: &'static str = ")),
    m_ownsPrivate(true)
{
";

pub const DESTRUCTOR: &'static str = "}

$0::~$0() {
    if (m_ownsPrivate) {
        $1_free(m_d);
    }
}
";

pub const INIT_HEADER_DATA_OPEN: &'static str = "void $0::initHeaderData() {
";

pub const HEADER_DATA: &'static str = "    m_headerData.insert(qMakePair($0, Qt::DisplayRole), QVariant(\"$1\"));
";

pub const FUNCTION_OPEN: &'static str = "$0 $1::$2(";

pub const FUNCTION_BODY_OPEN: &'static str = ")$0
{
";

pub const ARGUMENT_STRING: &'static str = ", $0.utf16(), $0.size()";

pub const ARGUMENT_BYTES: &'static str = ", $0.data(), $0.size()";

pub const ARGUMENT_VALUE: &'static str = ", $0";

pub const RETURN_STRING: &'static str = "    $0 s;
    $1(m_d$2, &s, set_qstring);
    return s;
";

pub const RETURN_BYTES: &'static str = "    $0 s;
    $1(m_d$2, &s, set_qbytearray);
    return s;
";

pub const RETURN_VALUE: &'static str = "    return $0(m_d$1);
";

pub const LIST_GETTER_OPEN: &'static str = "$0 $1::$2(int row) const
{
";

pub const TREE_GETTER_OPEN: &'static str = "$0 $1::$2(const QModelIndex& index) const
{
";

pub const LOCAL_STRING: &'static str = "    QString s;
";

pub const GET_STRING_CALL: &'static str = "    $0_data_$1(m_d$2, &s, set_$3);
";

pub const RETURN_LOCAL_STRING: &'static str = "    return s;
";

pub const LOCAL_BYTES: &'static str = "    QByteArray b;
";

pub const GET_BYTES_CALL: &'static str = "    $0_data_$1(m_d$2, &b, set_$3);
";

pub const RETURN_LOCAL_BYTES: &'static str = "    return b;
";

pub const LOCAL_VARIANT: &'static str = "    QVariant v;
";

pub const GET_VARIANT_CALL: &'static str = "    v = $0_data_$1(m_d$2);
";

pub const RETURN_LOCAL_VARIANT: &'static str = "    return v;
";

pub const RETURN_DATA_CALL: &'static str = "    return $0_data_$1(m_d$2);
";

pub const GETTER_CLOSE: &'static str = "}

";

pub const LIST_SETTER_OPEN: &'static str = "bool $0::set$1(int row, $2 value)
{
";

pub const TREE_SETTER_OPEN: &'static str = "bool $0::set$1(const QModelIndex& index, $2 value)
{
";

pub const SET_FLAG: &'static str = "    bool set = false;
";

pub const IF_OPEN: &'static str = "    if ($0) {
";

pub const SET_DATA_NONE_CALL: &'static str = "        set = $0_set_data_$1_none(m_d$2);
";

pub const ELSE_OPEN: &'static str = "    } else {
";

pub const CAN_CONVERT_OR_FALSE: &'static str = "    if (!value.canConvert(qMetaTypeId<$0>())) {
        return false;
    }
";

pub const SET_DATA_CONVERTED_CALL: &'static str = "    set = $0_set_data_$1(m_d$2, value.value<$3>());
";

pub const SET_DATA_CALL: &'static str = "    set = $0_set_data_$1(m_d$2, $3);
";

pub const IF_CLOSE: &'static str = "    }
";

pub const LIST_SETTER_END: &'static str = "    if (set) {
        QModelIndex index = createIndex(row, 0, row);
        Q_EMIT dataChanged(index, index);
    }
    return set;
}

";

pub const TREE_SETTER_END: &'static str = "    if (set) {
        Q_EMIT dataChanged(index, index);
    }
    return set;
}

";

pub const C_OPEN: &'static str = "extern \"C\" {
";

pub const ITEM_DATA_COMPLEX_DECL: &'static str = "    void $0_data_$1(const $2::Private*$3, $4);
";

pub const ITEM_DATA_DECL: &'static str = "    $0 $1_data_$2(const $3::Private*$4);
";

pub const SET_DATA_DECL_NAME: &'static str = "    bool $0_set_data_$1";

pub const SET_DATA_DECL_OBJECT: &'static str = "($0::Private*$1";

pub const SET_DATA_DECL_STRING: &'static str = "$0$1, const ushort* s, int len);
";

pub const SET_DATA_DECL_BYTES: &'static str = "$0$1, const char* s, int len);
";

pub const SET_DATA_DECL_VALUE: &'static str = "$0$1, $2);
";

pub const SET_DATA_DECL_NONE: &'static str = "$0_none$1);
";

pub const SORT_DECL: &'static str = "    void $0_sort($1::Private*, unsigned char column, Qt::SortOrder order = Qt::AscendingOrder);
";

pub const LIST_MODEL: &'static str = "
    int $1_row_count(const $0::Private*);
    bool $1_insert_rows($0::Private*, int, int);
    bool $1_remove_rows($0::Private*, int, int);
    bool $1_can_fetch_more(const $0::Private*);
    void $1_fetch_more($0::Private*);
}
int $0::columnCount(const QModelIndex &parent) const
{
    return (parent.isValid()) ? 0 : $2;
}

bool $0::hasChildren(const QModelIndex &parent) const
{
    return rowCount(parent) > 0;
}

int $0::rowCount(const QModelIndex &parent) const
{
    return (parent.isValid()) ? 0 : $1_row_count(m_d);
}

bool $0::insertRows(int row, int count, const QModelIndex &)
{
    return $1_insert_rows(m_d, row, count);
}

bool $0::removeRows(int row, int count, const QModelIndex &)
{
    return $1_remove_rows(m_d, row, count);
}

QModelIndex $0::index(int row, int column, const QModelIndex &parent) const
{
    if (!parent.isValid() && row >= 0 && row < rowCount(parent) && column >= 0 && column < $2) {
        return createIndex(row, column, (quintptr)row);
    }
    return QModelIndex();
}

QModelIndex $0::parent(const QModelIndex &) const
{
    return QModelIndex();
}

bool $0::canFetchMore(const QModelIndex &parent) const
{
    return (parent.isValid()) ? 0 : $1_can_fetch_more(m_d);
}

void $0::fetchMore(const QModelIndex &parent)
{
    if (!parent.isValid()) {
        $1_fetch_more(m_d);
    }
}
void $0::updatePersistentIndexes() {}
";

pub const TREE_MODEL: &'static str = "
    int $1_row_count(const $0::Private*, option_quintptr);
    bool $1_can_fetch_more(const $0::Private*, option_quintptr);
    void $1_fetch_more($0::Private*, option_quintptr);
    quintptr $1_index(const $0::Private*, option_quintptr, int);
    qmodelindex_t $1_parent(const $0::Private*, quintptr);
    int $1_row(const $0::Private*, quintptr);
    option_quintptr $1_check_row(const $0::Private*, quintptr, int);
}
int $0::columnCount(const QModelIndex &) const
{
    return $2;
}

bool $0::hasChildren(const QModelIndex &parent) const
{
    return rowCount(parent) > 0;
}

int $0::rowCount(const QModelIndex &parent) const
{
    if (parent.isValid() && parent.column() != 0) {
        return 0;
    }
    const option_quintptr rust_parent = {
        parent.internalId(),
        parent.isValid()
    };
    return $1_row_count(m_d, rust_parent);
}

bool $0::insertRows(int, int, const QModelIndex &)
{
    return false; // not supported yet
}

bool $0::removeRows(int, int, const QModelIndex &)
{
    return false; // not supported yet
}

QModelIndex $0::index(int row, int column, const QModelIndex &parent) const
{
    if (row < 0 || column < 0 || column >= $2) {
        return QModelIndex();
    }
    if (parent.isValid() && parent.column() != 0) {
        return QModelIndex();
    }
    if (row >= rowCount(parent)) {
        return QModelIndex();
    }
    const option_quintptr rust_parent = {
        parent.internalId(),
        parent.isValid()
    };
    const quintptr id = $1_index(m_d, rust_parent, row);
    return createIndex(row, column, id);
}

QModelIndex $0::parent(const QModelIndex &index) const
{
    if (!index.isValid()) {
        return QModelIndex();
    }
    const qmodelindex_t parent = $1_parent(m_d, index.internalId());
    return parent.row >= 0 ?createIndex(parent.row, 0, parent.id) :QModelIndex();
}

bool $0::canFetchMore(const QModelIndex &parent) const
{
    if (parent.isValid() && parent.column() != 0) {
        return false;
    }
    const option_quintptr rust_parent = {
        parent.internalId(),
        parent.isValid()
    };
    return $1_can_fetch_more(m_d, rust_parent);
}

void $0::fetchMore(const QModelIndex &parent)
{
    const option_quintptr rust_parent = {
        parent.internalId(),
        parent.isValid()
    };
    $1_fetch_more(m_d, rust_parent);
}
void $0::updatePersistentIndexes() {
    const auto from = persistentIndexList();
    auto to = from;
    auto len = to.size();
    for (int i = 0; i < len; ++i) {
        auto index = to.at(i);
        auto row = $1_check_row(m_d, index.internalId(), index.row());
        if (row.some) {
            to[i] = createIndex(row.value, index.column(), index.internalId());
        } else {
            to[i] = QModelIndex();
        }
    }
    changePersistentIndexList(from, to);
}
";

pub const SORT_AND_FLAGS_OPEN: &'static str = "
void $0::sort(int column, Qt::SortOrder order)
{
    $1_sort(m_d, column, order);
}
Qt::ItemFlags $0::flags(const QModelIndex &i) const
{
    auto flags = QAbstractItemModel::flags(i);
";

pub const FLAGS_COLUMN: &'static str = "    if (i.column() == $0) {
";

pub const FLAGS_EDITABLE: &'static str = "        flags |= Qt::ItemIsEditable;
    }
";

pub const FLAGS_CLOSE: &'static str = "    return flags;
}

";

pub const DATA_OPEN: &'static str = "QVariant $0::data(const QModelIndex &index, int role) const
{
    Q_ASSERT(rowCount(index.parent()) > index.row());
    switch (index.column()) {
";

pub const DATA_COLUMN: &'static str = "    case $0:
";

pub const DATA_SWITCH: &'static str = "        switch (role) {
";

pub const DATA_ROLE: &'static str = "        case Qt::$0:
";

pub const DATA_USER_ROLE: &'static str = "        case Qt::UserRole + $0:
";

pub const DATA_RETURN: &'static str = "            return $0(index$1);
";

pub const DATA_RETURN_CLEAN: &'static str = "            return cleanNullQVariant(QVariant::fromValue($0(index$1)));
";

pub const DATA_RETURN_VALUE: &'static str = "            return QVariant::fromValue($0(index$1));
";

pub const DATA_COLUMN_CLOSE: &'static str = "        }
        break;
";

pub const DATA_CLOSE_ROLE_NAMES_OPEN: &'static str = "    }
    return QVariant();
}

int $0::role(const char* name) const {
    auto names = roleNames();
    auto i = names.constBegin();
    while (i != names.constEnd()) {
        if (i.value() == name) {
            return i.key();
        }
        ++i;
    }
    return -1;
}
QHash<int, QByteArray> $0::roleNames() const {
    QHash<int, QByteArray> names = QAbstractItemModel::roleNames();
";

pub const ROLE_NAME_INSERT: &'static str = "    names.insert(Qt::UserRole + $0, \"$1\");
";

pub const ROLE_NAMES_CLOSE_HEADER_DATA: &'static str = "    return names;
}
QVariant $0::headerData(int section, Qt::Orientation orientation, int role) const
{
    if (orientation != Qt::Horizontal) {
        return QVariant();
    }
    return m_headerData.value(qMakePair(section, (Qt::ItemDataRole)role), role == Qt::DisplayRole ?QString::number(section + 1) :QVariant());
}

bool $0::setHeaderData(int section, Qt::Orientation orientation, const QVariant &value, int role)
{
    if (orientation != Qt::Horizontal) {
        return false;
    }
    m_headerData.insert(qMakePair(section, (Qt::ItemDataRole)role), value);
    return true;
}

";

pub const SET_DATA_OPEN: &'static str = "bool $0::setData(const QModelIndex &index, const QVariant &value, int role)
{
";

pub const SET_DATA_COLUMN: &'static str = "    if (index.column() == $0) {
";

pub const SET_DATA_IF: &'static str = "        if (";

pub const SET_DATA_ROLE: &'static str = "role == Qt::$0 || ";

pub const SET_DATA_USER_ROLE: &'static str = "role == Qt::UserRole + $0) {
";

pub const SET_DATA_RETURN: &'static str = "            return set$0(index$1, value);
";

pub const SET_DATA_IF_CONVERT: &'static str = "            if ($0value.canConvert(qMetaTypeId<$1>())) {
";

pub const SET_DATA_RETURN_CONVERTED: &'static str = "                return set$0(index$1, value.value<$2>());
";

pub const SET_DATA_CONVERT_CLOSE: &'static str = "            }
";

pub const SET_DATA_ROLE_CLOSE: &'static str = "        }
";

pub const SET_DATA_COLUMN_CLOSE: &'static str = "    }
";

pub const SET_DATA_CLOSE: &'static str = "    return false;
}

";

pub const ARGUMENT_OBJECT: &'static str = ", $0m_$1";

pub const ARGUMENT_CHANGED: &'static str = ",
        $0";

pub const LIST_CALLBACKS: &'static str = ",
        [](const $0* o) {
            Q_EMIT o->newDataReady(QModelIndex());
        },
        []($0* o) {
            Q_EMIT o->layoutAboutToBeChanged();
        },
        []($0* o) {
            o->updatePersistentIndexes();
            Q_EMIT o->layoutChanged();
        },
        []($0* o, quintptr first, quintptr last) {
            o->dataChanged(o->createIndex(first, 0, first),
                       o->createIndex(last, $1, last));
        },
        []($0* o) {
            o->beginResetModel();
        },
        []($0* o) {
            o->endResetModel();
        },
        []($0* o, int first, int last) {
            o->beginInsertRows(QModelIndex(), first, last);
        },
        []($0* o) {
            o->endInsertRows();
        },
        []($0* o, int first, int last, int destination) {
            o->beginMoveRows(QModelIndex(), first, last, QModelIndex(), destination);
        },
        []($0* o) {
            o->endMoveRows();
        },
        []($0* o, int first, int last) {
            o->beginRemoveRows(QModelIndex(), first, last);
        },
        []($0* o) {
            o->endRemoveRows();
        }
";

pub const TREE_CALLBACKS: &'static str = ",
        [](const $0* o, option_quintptr id) {
            if (id.some) {
                int row = $1_row(o->m_d, id.value);
                Q_EMIT o->newDataReady(o->createIndex(row, 0, id.value));
            } else {
                Q_EMIT o->newDataReady(QModelIndex());
            }
        },
        []($0* o) {
            Q_EMIT o->layoutAboutToBeChanged();
        },
        []($0* o) {
            o->updatePersistentIndexes();
            Q_EMIT o->layoutChanged();
        },
        []($0* o, quintptr first, quintptr last) {
            quintptr frow = $1_row(o->m_d, first);
            quintptr lrow = $1_row(o->m_d, last);
            o->dataChanged(o->createIndex(frow, 0, first),
                       o->createIndex(lrow, $2, last));
        },
        []($0* o) {
            o->beginResetModel();
        },
        []($0* o) {
            o->endResetModel();
        },
        []($0* o, option_quintptr id, int first, int last) {
            if (id.some) {
                int row = $1_row(o->m_d, id.value);
                o->beginInsertRows(o->createIndex(row, 0, id.value), first, last);
            } else {
                o->beginInsertRows(QModelIndex(), first, last);
            }
        },
        []($0* o) {
            o->endInsertRows();
        },
        []($0* o, option_quintptr sourceParent, int first, int last, option_quintptr destinationParent, int destination) {
            QModelIndex s;
            if (sourceParent.some) {
                int row = $1_row(o->m_d, sourceParent.value);
                s = o->createIndex(row, 0, sourceParent.value);
            }
            QModelIndex d;
            if (destinationParent.some) {
                int row = $1_row(o->m_d, destinationParent.value);
                d = o->createIndex(row, 0, destinationParent.value);
            }
            o->beginMoveRows(s, first, last, d, destination);
        },
        []($0* o) {
            o->endMoveRows();
        },
        []($0* o, option_quintptr id, int first, int last) {
            if (id.some) {
                int row = $1_row(o->m_d, id.value);
                o->beginRemoveRows(o->createIndex(row, 0, id.value), first, last);
            } else {
                o->beginRemoveRows(QModelIndex(), first, last);
            }
        },
        []($0* o) {
            o->endRemoveRows();
        }
";

pub const HEADER_OPEN: &'static str = "/* generated by rust_qt_binding_generator */
#ifndef $0
#define $0

#include <QtCore/QObject>
#include <QtCore/QAbstractItemModel>

";

pub const CLASS_FORWARD: &'static str = "class $0;
";

pub const HEADER_CLOSE: &'static str = "#endif // $0
";

pub const CPP_OPEN: &'static str = "/* generated by rust_qt_binding_generator */
#include \"$0\"

namespace {
";

pub const OPTION_STRUCT: &'static str = "
    struct option_$0 {
    public:
        $0 value;
        bool some;
        operator QVariant() const {
            if (some) {
                return QVariant::fromValue(value);
            }
            return QVariant();
        }
    };
    static_assert(std::is_pod<option_$0>::value, \"option_$0 must be a POD type.\");
";

pub const STRING_SET: &'static str = "
    typedef void (*qstring_set)(QString* val, const char* utf8, int nbytes);
    void set_qstring(QString* val, const char* utf8, int nbytes) {
        *val = QString::fromUtf8(utf8, nbytes);
    }
";

pub const BYTES_SET: &'static str = "
    typedef void (*qbytearray_set)(QByteArray* val, const char* bytes, int nbytes);
    void set_qbytearray(QByteArray* v, const char* bytes, int nbytes) {
        if (v->isNull() && nbytes == 0) {
            *v = QByteArray(bytes, nbytes);
        } else {
            v->truncate(0);
            v->append(bytes, nbytes);
        }
    }
";

pub const MODEL_INDEX: &'static str = "
    struct qmodelindex_t {
        int row;
        quintptr id;
    };
    inline QVariant cleanNullQVariant(const QVariant& v) {
        return (v.isNull()) ?QVariant() :v;
    }
";

pub const CHANGED_OPEN: &'static str = "    inline void $0($1* o)
";

pub const CHANGED_BODY: &'static str = "    {
        Q_EMIT o->$0Changed();
    }
";

pub const NAMESPACE_CLOSE: &'static str = "}
";

pub const C_CLOSE: &'static str = "};

";

pub const INVOKE_METHOD: &'static str = "extern \"C\" {
    void qmetaobject__invokeMethod__0(QObject *obj, const char *member) {
        QMetaObject::invokeMethod(obj, member);
    }
}
";

pub const MODEL_DECLARATIONS: &'static str = "
    int columnCount(const QModelIndex &parent = QModelIndex()) const override;
    QVariant data(const QModelIndex &index, int role = Qt::DisplayRole) const override;
    QModelIndex index(int row, int column, const QModelIndex &parent = QModelIndex()) const override;
    QModelIndex parent(const QModelIndex &index) const override;
    bool hasChildren(const QModelIndex &parent = QModelIndex()) const override;
    int rowCount(const QModelIndex &parent = QModelIndex()) const override;
    bool canFetchMore(const QModelIndex &parent) const override;
    void fetchMore(const QModelIndex &parent) override;
    Qt::ItemFlags flags(const QModelIndex &index) const override;
    void sort(int column, Qt::SortOrder order = Qt::AscendingOrder) override;
    int role(const char* name) const;
    QHash<int, QByteArray> roleNames() const override;
    QVariant headerData(int section, Qt::Orientation orientation, int role = Qt::DisplayRole) const override;
    bool setHeaderData(int section, Qt::Orientation orientation, const QVariant &value, int role = Qt::EditRole) override;
    Q_INVOKABLE bool insertRows(int row, int count, const QModelIndex &parent = QModelIndex()) override;
    Q_INVOKABLE bool removeRows(int row, int count, const QModelIndex &parent = QModelIndex()) override;
";

pub const MODEL_SET_DATA: &'static str =
    "    bool setData(const QModelIndex &index, const QVariant &value, int role = Qt::EditRole) override;\n";

pub const LIST_ITEM_GETTER: &'static str = "    Q_INVOKABLE $0 $1(int row) const;\n";

pub const LIST_ITEM_SETTER: &'static str = "    Q_INVOKABLE bool set$0(int row, $1 value);\n";

pub const TREE_ITEM_GETTER: &'static str = "    Q_INVOKABLE $0 $1(const QModelIndex& index) const;\n";

pub const TREE_ITEM_SETTER: &'static str =
    "    Q_INVOKABLE bool set$0(const QModelIndex& index, $1 value);\n";

pub const MODEL_SIGNALS: &'static str = "
Q_SIGNALS:
    // new data is ready to be made available to the model with fetchMore()
    void newDataReady(const QModelIndex &parent) const;
private:
    QHash<QPair<int,Qt::ItemDataRole>, QVariant> m_headerData;
    void initHeaderData();
    void updatePersistentIndexes();
";

pub const CLASS_OPEN: &'static str = "
class $0 : public $1
{
    Q_OBJECT
";

pub const FRIEND_CLASS: &'static str = "    friend class $0;\n";

pub const CLASS_PRIVATE: &'static str = "public:
    class Private;
private:
";

pub const MEMBER_OBJECT: &'static str = "    $0* const m_$1;\n";

pub const MEMBER_PRIVATE: &'static str = "    Private * m_d;
    bool m_ownsPrivate;
";

pub const PROPERTY_DECLARATION: &'static str =
    "    Q_PROPERTY($0 $1 READ $1 $2NOTIFY $1Changed FINAL)\n";

pub const CONSTRUCTORS: &'static str = "    explicit $0(bool owned, QObject *parent);
public:
    explicit $0(QObject *parent = nullptr);
    ~$0();
";

pub const OBJECT_GETTER_CONST: &'static str = "    const $0* $1() const;\n";

pub const OBJECT_GETTER: &'static str = "    $0* $1();\n";

pub const VALUE_GETTER: &'static str = "    $0 $1() const;\n";

pub const VALUE_SETTER: &'static str = "    void set$0($1 v);\n";

pub const DECLARED_FUNCTION_OPEN: &'static str = "    Q_INVOKABLE $0 $1(";

pub const FUNCTION_ARGUMENT: &'static str = "$0 $1";

pub const SIGNALS: &'static str = "Q_SIGNALS:\n";

pub const CHANGED_SIGNAL: &'static str = "    void $0Changed();\n";

pub const CLASS_CLOSE: &'static str = "};\n";

pub const FUNCTION_NAME: &'static str = " $0_$1($2$3::Private*";

pub const LIST_CALLBACK_TYPES: &'static str = ",
        void (*)(const $0*),
        void (*)($0*),
        void (*)($0*),
        void (*)($0*, quintptr, quintptr),
        void (*)($0*),
        void (*)($0*),
        void (*)($0*, int, int),
        void (*)($0*),
        void (*)($0*, int, int, int),
        void (*)($0*),
        void (*)($0*, int, int),
        void (*)($0*)";

pub const TREE_CALLBACK_TYPES: &'static str = ",
        void (*)(const $0*, option_quintptr),
        void (*)($0*),
        void (*)($0*),
        void (*)($0*, quintptr, quintptr),
        void (*)($0*),
        void (*)($0*),
        void (*)($0*, option_quintptr, int, int),
        void (*)($0*),
        void (*)($0*, option_quintptr, int, int, option_quintptr, int),
        void (*)($0*),
        void (*)($0*, option_quintptr, int, int),
        void (*)($0*)";

pub const CHANGED_CALLBACK_TYPE: &'static str = ", void (*)($0*)";

pub const NEW_OPEN: &'static str = "    $0::Private* $1_new(";

pub const FREE: &'static str = "    void $0_free($1::Private*);\n";

pub const GET_OBJECT: &'static str = "    $0::Private* $1_get(const $2::Private*);\n";

pub const GET_COMPLEX: &'static str = "    void $0_get(const $1::Private*, $2);\n";

pub const GET_OPTIONAL: &'static str = "    option_$0 $1_get(const $2::Private*);\n";

pub const GET_VALUE: &'static str = "    $0 $1_get(const $2::Private*);\n";

pub const SET: &'static str = "    void $0_set($1::Private*, $2);\n";

pub const SET_NONE: &'static str = "    void $0_set_none($1::Private*);\n";

} // verus!
