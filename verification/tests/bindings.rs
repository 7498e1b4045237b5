use rust_qt_binding_generator::configuration::json;
use rust_qt_binding_generator::configuration::{
    Argument, Function, ItemProperty, ObjectType, Rust, SimpleType,
};
use rust_qt_binding_generator::manifest::Manifest;
use rust_qt_binding_generator::rust::Implementation;
use rust_qt_binding_generator::configuration::Config;
use rust_qt_binding_generator::cpp::{write_cpp, write_header};
use rust_qt_binding_generator::rust::{write_implementation, write_interface};
use rust_qt_binding_generator::{generate_bindings, read_bindings_file};

fn property(type_text: &str, optional: bool, write: bool) -> json::Property {
    json::Property { optional, property_type: type_text.to_string(), rust_by_function: false, write }
}

fn item(t: SimpleType, optional: bool, write: bool, roles: Vec<Vec<&str>>) -> ItemProperty {
    ItemProperty {
        item_property_type: t,
        optional,
        roles: roles.into_iter().map(|c| c.into_iter().map(|r| r.to_string()).collect()).collect(),
        rust_by_value: false,
        write,
    }
}

fn config() -> Config {
    let person = json::Object {
        functions: vec![(
            "greetAll".to_string(),
            Function {
                return_type: SimpleType::QString,
                mutable: false,
                arguments: vec![
                    Argument { name: "name".to_string(), argument_type: SimpleType::QString },
                    Argument { name: "times".to_string(), argument_type: SimpleType::QUint8 },
                ],
            },
        )],
        item_properties: vec![],
        object_type: ObjectType::Object,
        properties: vec![
            ("age".to_string(), property("quint8", true, true)),
            ("icon".to_string(), property("QByteArray", false, false)),
            ("userName".to_string(), property("QString", false, true)),
        ],
    };
    let persons = json::Object {
        functions: vec![],
        item_properties: vec![
            ("age".to_string(), item(SimpleType::QUint8, true, true, vec![vec![], vec!["display"]])),
            ("userName".to_string(), item(SimpleType::QString, false, true, vec![vec!["display", "edit"]])),
        ],
        object_type: ObjectType::List,
        properties: vec![("active".to_string(), property("Person", false, false))],
    };
    let tree = json::Object {
        functions: vec![],
        item_properties: vec![("fileName".to_string(), item(SimpleType::QString, false, false, vec![vec!["display"]]))],
        object_type: ObjectType::Tree,
        properties: vec![],
    };
    let json = json::Config {
        cpp_file: "Bindings.cpp".to_string(),
        objects: vec![
            ("FileTree".to_string(), tree),
            ("Person".to_string(), person),
            ("Persons".to_string(), persons),
        ],
        rust: Rust {
            dir: "rust".to_string(),
            implementation_module: "implementation".to_string(),
            interface_module: "interface".to_string(),
        },
        overwrite_implementation: false,
    };
    read_bindings_file(
        "bindings.json",
        json,
        Manifest::Text("[package]\nedition = \"2018\"\n".to_string()),
    )
    .ok()
    .unwrap()
}

fn assert_same_text(found: &str, expected: &str) {
    let f: Vec<&str> = found.split('\n').collect();
    let e: Vec<&str> = expected.split('\n').collect();
    for i in 0..f.len().min(e.len()) {
        assert_eq!(f[i], e[i], "line {}", i + 1);
    }
    assert_eq!(f.len(), e.len());
}

#[test]
fn the_header_of_a_tree_an_object_and_a_list() {
    assert_same_text(&write_header(&config(), "Bindings.h").unwrap(), HEADER);
}

#[test]
fn the_source_of_a_tree_an_object_and_a_list() {
    assert_same_text(&write_cpp(&config(), "Bindings.h").unwrap(), CPP);
}

#[test]
fn the_interface_of_a_tree_an_object_and_a_list() {
    assert_same_text(&write_interface(&config()).unwrap(), INTERFACE);
}

#[test]
fn the_implementation_of_a_tree_an_object_and_a_list() {
    match write_implementation(&config(), false) {
        Some(Implementation::Written(text)) => assert_same_text(&text, IMPLEMENTATION),
        _ => panic!("nothing was written"),
    }
}

#[test]
fn bindings_are_the_four_texts() {
    let bindings = generate_bindings(&config(), "Bindings.h", false).unwrap();
    assert_eq!(bindings.header, HEADER);
    assert_eq!(bindings.cpp, CPP);
    assert_eq!(bindings.interface, INTERFACE);
    assert!(matches!(bindings.implementation, Implementation::Written(text) if text == IMPLEMENTATION));
}

#[test]
fn the_same_configuration_gives_the_same_bindings() {
    let first = generate_bindings(&config(), "Bindings.h", false).unwrap();
    let second = generate_bindings(&config(), "Bindings.h", false).unwrap();
    assert_eq!(first.header, second.header);
    assert_eq!(first.cpp, second.cpp);
    assert_eq!(first.interface, second.interface);
    match (first.implementation, second.implementation) {
        (Implementation::Written(a), Implementation::Written(b)) => assert_eq!(a, b),
        _ => panic!("nothing was written"),
    }
}

#[test]
fn an_implementation_that_is_there_is_kept() {
    assert!(matches!(write_implementation(&config(), true), Some(Implementation::Kept)));
    let bindings = generate_bindings(&config(), "Bindings.h", true).unwrap();
    assert!(matches!(bindings.implementation, Implementation::Kept));
    assert_eq!(bindings.header, HEADER);
    let mut overwriting = config();
    overwriting.overwrite_implementation = true;
    assert!(matches!(write_implementation(&overwriting, true), Some(Implementation::Written(_))));
}

#[test]
fn the_guard_is_made_of_the_name_of_the_header() {
    let header = write_header(&config(), "my.bindings.h").unwrap();
    assert!(header.starts_with("/* generated by rust_qt_binding_generator */\n#ifndef MY_BINDINGS_H\n#define MY_BINDINGS_H\n"));
    assert!(header.ends_with("#endif // MY_BINDINGS_H\n"));
    let cpp = write_cpp(&config(), "my.bindings.h").unwrap();
    assert!(cpp.starts_with("/* generated by rust_qt_binding_generator */\n#include \"my.bindings.h\"\n"));
}

const HEADER: &str = "/* generated by rust_qt_binding_generator */
#ifndef BINDINGS_H
#define BINDINGS_H

#include <QtCore/QObject>
#include <QtCore/QAbstractItemModel>

class FileTree;
class Person;
class Persons;

class FileTree : public QAbstractItemModel
{
    Q_OBJECT
    friend class Persons;
public:
    class Private;
private:
    Private * m_d;
    bool m_ownsPrivate;
    explicit FileTree(bool owned, QObject *parent);
public:
    explicit FileTree(QObject *parent = nullptr);
    ~FileTree();

    int columnCount(const QModelIndex &parent = QModelIndex()) const override;
    QVariant data(const QModelIndex &index, int role = Qt::DisplayRole) const override;
    QModelIndex index(int row, int column, const QModelIndex &parent = QModelIndex()) const override;
    QModelIndex parent(const QModelIndex &index) const override;
    bool hasChildren(const QModelIndex &parent = QModelIndex()) const override;
    int rowCount(const QModelIndex &parent = QModelIndex()) const override;
    bool canFetchMore(const QModelIndex &parent) const override;
    void fetchMore(const QModelIndex &parent) override;
    Qt::ItemFlags flags(const QModelIndex &index) const override;
    void sort(int column, Qt::SortOrder order = Qt::AscendingOrder) override;
    int role(const char* name) const;
    QHash<int, QByteArray> roleNames() const override;
    QVariant headerData(int section, Qt::Orientation orientation, int role = Qt::DisplayRole) const override;
    bool setHeaderData(int section, Qt::Orientation orientation, const QVariant &value, int role = Qt::EditRole) override;
    Q_INVOKABLE bool insertRows(int row, int count, const QModelIndex &parent = QModelIndex()) override;
    Q_INVOKABLE bool removeRows(int row, int count, const QModelIndex &parent = QModelIndex()) override;
    Q_INVOKABLE QString fileName(const QModelIndex& index) const;

Q_SIGNALS:
    // new data is ready to be made available to the model with fetchMore()
    void newDataReady(const QModelIndex &parent) const;
private:
    QHash<QPair<int,Qt::ItemDataRole>, QVariant> m_headerData;
    void initHeaderData();
    void updatePersistentIndexes();
Q_SIGNALS:
};

class Person : public QObject
{
    Q_OBJECT
    friend class Persons;
public:
    class Private;
private:
    Private * m_d;
    bool m_ownsPrivate;
    Q_PROPERTY(QVariant age READ age WRITE setAge NOTIFY ageChanged FINAL)
    Q_PROPERTY(QByteArray icon READ icon NOTIFY iconChanged FINAL)
    Q_PROPERTY(QString userName READ userName WRITE setUserName NOTIFY userNameChanged FINAL)
    explicit Person(bool owned, QObject *parent);
public:
    explicit Person(QObject *parent = nullptr);
    ~Person();
    QVariant age() const;
    void setAge(const QVariant& v);
    QByteArray icon() const;
    QString userName() const;
    void setUserName(const QString& v);
    Q_INVOKABLE QString greetAll(const QString& name, quint8 times) const;
Q_SIGNALS:
    void ageChanged();
    void iconChanged();
    void userNameChanged();
};

class Persons : public QAbstractItemModel
{
    Q_OBJECT
public:
    class Private;
private:
    Person* const m_active;
    Private * m_d;
    bool m_ownsPrivate;
    Q_PROPERTY(Person* active READ active NOTIFY activeChanged FINAL)
    explicit Persons(bool owned, QObject *parent);
public:
    explicit Persons(QObject *parent = nullptr);
    ~Persons();
    const Person* active() const;
    Person* active();

    int columnCount(const QModelIndex &parent = QModelIndex()) const override;
    QVariant data(const QModelIndex &index, int role = Qt::DisplayRole) const override;
    QModelIndex index(int row, int column, const QModelIndex &parent = QModelIndex()) const override;
    QModelIndex parent(const QModelIndex &index) const override;
    bool hasChildren(const QModelIndex &parent = QModelIndex()) const override;
    int rowCount(const QModelIndex &parent = QModelIndex()) const override;
    bool canFetchMore(const QModelIndex &parent) const override;
    void fetchMore(const QModelIndex &parent) override;
    Qt::ItemFlags flags(const QModelIndex &index) const override;
    void sort(int column, Qt::SortOrder order = Qt::AscendingOrder) override;
    int role(const char* name) const;
    QHash<int, QByteArray> roleNames() const override;
    QVariant headerData(int section, Qt::Orientation orientation, int role = Qt::DisplayRole) const override;
    bool setHeaderData(int section, Qt::Orientation orientation, const QVariant &value, int role = Qt::EditRole) override;
    Q_INVOKABLE bool insertRows(int row, int count, const QModelIndex &parent = QModelIndex()) override;
    Q_INVOKABLE bool removeRows(int row, int count, const QModelIndex &parent = QModelIndex()) override;
    bool setData(const QModelIndex &index, const QVariant &value, int role = Qt::EditRole) override;
    Q_INVOKABLE QVariant age(int row) const;
    Q_INVOKABLE bool setAge(int row, const QVariant& value);
    Q_INVOKABLE QString userName(int row) const;
    Q_INVOKABLE bool setUserName(int row, const QString& value);

Q_SIGNALS:
    // new data is ready to be made available to the model with fetchMore()
    void newDataReady(const QModelIndex &parent) const;
private:
    QHash<QPair<int,Qt::ItemDataRole>, QVariant> m_headerData;
    void initHeaderData();
    void updatePersistentIndexes();
Q_SIGNALS:
    void activeChanged();
};
#endif // BINDINGS_H
";

const CPP: &str = "/* generated by rust_qt_binding_generator */
#include \"Bindings.h\"

namespace {

    struct option_quint8 {
    public:
        quint8 value;
        bool some;
        operator QVariant() const {
            if (some) {
                return QVariant::fromValue(value);
            }
            return QVariant();
        }
    };
    static_assert(std::is_pod<option_quint8>::value, \"option_quint8 must be a POD type.\");

    struct option_quintptr {
    public:
        quintptr value;
        bool some;
        operator QVariant() const {
            if (some) {
                return QVariant::fromValue(value);
            }
            return QVariant();
        }
    };
    static_assert(std::is_pod<option_quintptr>::value, \"option_quintptr must be a POD type.\");

    typedef void (*qstring_set)(QString* val, const char* utf8, int nbytes);
    void set_qstring(QString* val, const char* utf8, int nbytes) {
        *val = QString::fromUtf8(utf8, nbytes);
    }

    typedef void (*qbytearray_set)(QByteArray* val, const char* bytes, int nbytes);
    void set_qbytearray(QByteArray* v, const char* bytes, int nbytes) {
        if (v->isNull() && nbytes == 0) {
            *v = QByteArray(bytes, nbytes);
        } else {
            v->truncate(0);
            v->append(bytes, nbytes);
        }
    }

    struct qmodelindex_t {
        int row;
        quintptr id;
    };
    inline QVariant cleanNullQVariant(const QVariant& v) {
        return (v.isNull()) ?QVariant() :v;
    }
    inline void personAgeChanged(Person* o)
    {
        Q_EMIT o->ageChanged();
    }
    inline void personIconChanged(Person* o)
    {
        Q_EMIT o->iconChanged();
    }
    inline void personUserNameChanged(Person* o)
    {
        Q_EMIT o->userNameChanged();
    }
}
extern \"C\" {
    void file_tree_data_file_name(const FileTree::Private*, quintptr, QString*, qstring_set);
    void file_tree_sort(FileTree::Private*, unsigned char column, Qt::SortOrder order = Qt::AscendingOrder);

    int file_tree_row_count(const FileTree::Private*, option_quintptr);
    bool file_tree_can_fetch_more(const FileTree::Private*, option_quintptr);
    void file_tree_fetch_more(FileTree::Private*, option_quintptr);
    quintptr file_tree_index(const FileTree::Private*, option_quintptr, int);
    qmodelindex_t file_tree_parent(const FileTree::Private*, quintptr);
    int file_tree_row(const FileTree::Private*, quintptr);
    option_quintptr file_tree_check_row(const FileTree::Private*, quintptr, int);
}
int FileTree::columnCount(const QModelIndex &) const
{
    return 1;
}

bool FileTree::hasChildren(const QModelIndex &parent) const
{
    return rowCount(parent) > 0;
}

int FileTree::rowCount(const QModelIndex &parent) const
{
    if (parent.isValid() && parent.column() != 0) {
        return 0;
    }
    const option_quintptr rust_parent = {
        parent.internalId(),
        parent.isValid()
    };
    return file_tree_row_count(m_d, rust_parent);
}

bool FileTree::insertRows(int, int, const QModelIndex &)
{
    return false; // not supported yet
}

bool FileTree::removeRows(int, int, const QModelIndex &)
{
    return false; // not supported yet
}

QModelIndex FileTree::index(int row, int column, const QModelIndex &parent) const
{
    if (row < 0 || column < 0 || column >= 1) {
        return QModelIndex();
    }
    if (parent.isValid() && parent.column() != 0) {
        return QModelIndex();
    }
    if (row >= rowCount(parent)) {
        return QModelIndex();
    }
    const option_quintptr rust_parent = {
        parent.internalId(),
        parent.isValid()
    };
    const quintptr id = file_tree_index(m_d, rust_parent, row);
    return createIndex(row, column, id);
}

QModelIndex FileTree::parent(const QModelIndex &index) const
{
    if (!index.isValid()) {
        return QModelIndex();
    }
    const qmodelindex_t parent = file_tree_parent(m_d, index.internalId());
    return parent.row >= 0 ?createIndex(parent.row, 0, parent.id) :QModelIndex();
}

bool FileTree::canFetchMore(const QModelIndex &parent) const
{
    if (parent.isValid() && parent.column() != 0) {
        return false;
    }
    const option_quintptr rust_parent = {
        parent.internalId(),
        parent.isValid()
    };
    return file_tree_can_fetch_more(m_d, rust_parent);
}

void FileTree::fetchMore(const QModelIndex &parent)
{
    const option_quintptr rust_parent = {
        parent.internalId(),
        parent.isValid()
    };
    file_tree_fetch_more(m_d, rust_parent);
}
void FileTree::updatePersistentIndexes() {
    const auto from = persistentIndexList();
    auto to = from;
    auto len = to.size();
    for (int i = 0; i < len; ++i) {
        auto index = to.at(i);
        auto row = file_tree_check_row(m_d, index.internalId(), index.row());
        if (row.some) {
            to[i] = createIndex(row.value, index.column(), index.internalId());
        } else {
            to[i] = QModelIndex();
        }
    }
    changePersistentIndexList(from, to);
}

void FileTree::sort(int column, Qt::SortOrder order)
{
    file_tree_sort(m_d, column, order);
}
Qt::ItemFlags FileTree::flags(const QModelIndex &i) const
{
    auto flags = QAbstractItemModel::flags(i);
    return flags;
}

QString FileTree::fileName(const QModelIndex& index) const
{
    QString s;
    file_tree_data_file_name(m_d, index.internalId(), &s, set_qstring);
    return s;
}

QVariant FileTree::data(const QModelIndex &index, int role) const
{
    Q_ASSERT(rowCount(index.parent()) > index.row());
    switch (index.column()) {
    case 0:
        switch (role) {
        case Qt::DisplayRole:
        case Qt::UserRole + 0:
            return QVariant::fromValue(fileName(index));
        }
        break;
    }
    return QVariant();
}

int FileTree::role(const char* name) const {
    auto names = roleNames();
    auto i = names.constBegin();
    while (i != names.constEnd()) {
        if (i.value() == name) {
            return i.key();
        }
        ++i;
    }
    return -1;
}
QHash<int, QByteArray> FileTree::roleNames() const {
    QHash<int, QByteArray> names = QAbstractItemModel::roleNames();
    names.insert(Qt::UserRole + 0, \"fileName\");
    return names;
}
QVariant FileTree::headerData(int section, Qt::Orientation orientation, int role) const
{
    if (orientation != Qt::Horizontal) {
        return QVariant();
    }
    return m_headerData.value(qMakePair(section, (Qt::ItemDataRole)role), role == Qt::DisplayRole ?QString::number(section + 1) :QVariant());
}

bool FileTree::setHeaderData(int section, Qt::Orientation orientation, const QVariant &value, int role)
{
    if (orientation != Qt::Horizontal) {
        return false;
    }
    m_headerData.insert(qMakePair(section, (Qt::ItemDataRole)role), value);
    return true;
}

extern \"C\" {
    FileTree::Private* file_tree_new(FileTree*,
        void (*)(const FileTree*, option_quintptr),
        void (*)(FileTree*),
        void (*)(FileTree*),
        void (*)(FileTree*, quintptr, quintptr),
        void (*)(FileTree*),
        void (*)(FileTree*),
        void (*)(FileTree*, option_quintptr, int, int),
        void (*)(FileTree*),
        void (*)(FileTree*, option_quintptr, int, int, option_quintptr, int),
        void (*)(FileTree*),
        void (*)(FileTree*, option_quintptr, int, int),
        void (*)(FileTree*));
    void file_tree_free(FileTree::Private*);
};

extern \"C\" {
    Person::Private* person_new(Person*, void (*)(Person*), void (*)(Person*), void (*)(Person*));
    void person_free(Person::Private*);
    option_quint8 person_age_get(const Person::Private*);
    void person_age_set(Person::Private*, quint8);
    void person_age_set_none(Person::Private*);
    void person_icon_get(const Person::Private*, QByteArray*, qbytearray_set);
    void person_user_name_get(const Person::Private*, QString*, qstring_set);
    void person_user_name_set(Person::Private*, const ushort *str, int len);
    void person_greet_all(const Person::Private*, const ushort*, int, quint8, QString*, qstring_set);
};

extern \"C\" {
    option_quint8 persons_data_age(const Persons::Private*, int);
    bool persons_set_data_age(Persons::Private*, int, quint8);
    bool persons_set_data_age_none(Persons::Private*, int);
    void persons_data_user_name(const Persons::Private*, int, QString*, qstring_set);
    bool persons_set_data_user_name(Persons::Private*, int, const ushort* s, int len);
    void persons_sort(Persons::Private*, unsigned char column, Qt::SortOrder order = Qt::AscendingOrder);

    int persons_row_count(const Persons::Private*);
    bool persons_insert_rows(Persons::Private*, int, int);
    bool persons_remove_rows(Persons::Private*, int, int);
    bool persons_can_fetch_more(const Persons::Private*);
    void persons_fetch_more(Persons::Private*);
}
int Persons::columnCount(const QModelIndex &parent) const
{
    return (parent.isValid()) ? 0 : 2;
}

bool Persons::hasChildren(const QModelIndex &parent) const
{
    return rowCount(parent) > 0;
}

int Persons::rowCount(const QModelIndex &parent) const
{
    return (parent.isValid()) ? 0 : persons_row_count(m_d);
}

bool Persons::insertRows(int row, int count, const QModelIndex &)
{
    return persons_insert_rows(m_d, row, count);
}

bool Persons::removeRows(int row, int count, const QModelIndex &)
{
    return persons_remove_rows(m_d, row, count);
}

QModelIndex Persons::index(int row, int column, const QModelIndex &parent) const
{
    if (!parent.isValid() && row >= 0 && row < rowCount(parent) && column >= 0 && column < 2) {
        return createIndex(row, column, (quintptr)row);
    }
    return QModelIndex();
}

QModelIndex Persons::parent(const QModelIndex &) const
{
    return QModelIndex();
}

bool Persons::canFetchMore(const QModelIndex &parent) const
{
    return (parent.isValid()) ? 0 : persons_can_fetch_more(m_d);
}

void Persons::fetchMore(const QModelIndex &parent)
{
    if (!parent.isValid()) {
        persons_fetch_more(m_d);
    }
}
void Persons::updatePersistentIndexes() {}

void Persons::sort(int column, Qt::SortOrder order)
{
    persons_sort(m_d, column, order);
}
Qt::ItemFlags Persons::flags(const QModelIndex &i) const
{
    auto flags = QAbstractItemModel::flags(i);
    if (i.column() == 0) {
        flags |= Qt::ItemIsEditable;
    }
    if (i.column() == 1) {
        flags |= Qt::ItemIsEditable;
    }
    return flags;
}

QVariant Persons::age(int row) const
{
    QVariant v;
    v = persons_data_age(m_d, row);
    return v;
}

bool Persons::setAge(int row, const QVariant& value)
{
    bool set = false;
    if (value.isNull() || !value.isValid()) {
        set = persons_set_data_age_none(m_d, row);
    } else {
    if (!value.canConvert(qMetaTypeId<quint8>())) {
        return false;
    }
    set = persons_set_data_age(m_d, row, value.value<quint8>());
    }
    if (set) {
        QModelIndex index = createIndex(row, 0, row);
        Q_EMIT dataChanged(index, index);
    }
    return set;
}

QString Persons::userName(int row) const
{
    QString s;
    persons_data_user_name(m_d, row, &s, set_qstring);
    return s;
}

bool Persons::setUserName(int row, const QString& value)
{
    bool set = false;
    set = persons_set_data_user_name(m_d, row, value.utf16(), value.length());
    if (set) {
        QModelIndex index = createIndex(row, 0, row);
        Q_EMIT dataChanged(index, index);
    }
    return set;
}

QVariant Persons::data(const QModelIndex &index, int role) const
{
    Q_ASSERT(rowCount(index.parent()) > index.row());
    switch (index.column()) {
    case 0:
        switch (role) {
        case Qt::UserRole + 0:
            return age(index.row());
        case Qt::DisplayRole:
        case Qt::EditRole:
        case Qt::UserRole + 1:
            return QVariant::fromValue(userName(index.row()));
        }
        break;
    case 1:
        switch (role) {
        case Qt::DisplayRole:
        case Qt::UserRole + 0:
            return age(index.row());
        case Qt::UserRole + 1:
            return QVariant::fromValue(userName(index.row()));
        }
        break;
    }
    return QVariant();
}

int Persons::role(const char* name) const {
    auto names = roleNames();
    auto i = names.constBegin();
    while (i != names.constEnd()) {
        if (i.value() == name) {
            return i.key();
        }
        ++i;
    }
    return -1;
}
QHash<int, QByteArray> Persons::roleNames() const {
    QHash<int, QByteArray> names = QAbstractItemModel::roleNames();
    names.insert(Qt::UserRole + 0, \"age\");
    names.insert(Qt::UserRole + 1, \"userName\");
    return names;
}
QVariant Persons::headerData(int section, Qt::Orientation orientation, int role) const
{
    if (orientation != Qt::Horizontal) {
        return QVariant();
    }
    return m_headerData.value(qMakePair(section, (Qt::ItemDataRole)role), role == Qt::DisplayRole ?QString::number(section + 1) :QVariant());
}

bool Persons::setHeaderData(int section, Qt::Orientation orientation, const QVariant &value, int role)
{
    if (orientation != Qt::Horizontal) {
        return false;
    }
    m_headerData.insert(qMakePair(section, (Qt::ItemDataRole)role), value);
    return true;
}

bool Persons::setData(const QModelIndex &index, const QVariant &value, int role)
{
    if (index.column() == 0) {
        if (role == Qt::UserRole + 0) {
            return setAge(index.row(), value);
        }
        if (role == Qt::DisplayRole || role == Qt::EditRole || role == Qt::UserRole + 1) {
            if (value.canConvert(qMetaTypeId<QString>())) {
                return setUserName(index.row(), value.value<QString>());
            }
        }
    }
    if (index.column() == 1) {
        if (role == Qt::DisplayRole || role == Qt::UserRole + 0) {
            return setAge(index.row(), value);
        }
        if (role == Qt::UserRole + 1) {
            if (value.canConvert(qMetaTypeId<QString>())) {
                return setUserName(index.row(), value.value<QString>());
            }
        }
    }
    return false;
}

extern \"C\" {
    Persons::Private* persons_new(Persons*, Person*, void (*)(Person*), void (*)(Person*), void (*)(Person*),
        void (*)(const Persons*),
        void (*)(Persons*),
        void (*)(Persons*),
        void (*)(Persons*, quintptr, quintptr),
        void (*)(Persons*),
        void (*)(Persons*),
        void (*)(Persons*, int, int),
        void (*)(Persons*),
        void (*)(Persons*, int, int, int),
        void (*)(Persons*),
        void (*)(Persons*, int, int),
        void (*)(Persons*));
    void persons_free(Persons::Private*);
    Person::Private* persons_active_get(const Persons::Private*);
};

FileTree::FileTree(bool /*owned*/, QObject *parent):
    QAbstractItemModel(parent),
    m_d(nullptr),
    m_ownsPrivate(false)
{
    initHeaderData();
}

FileTree::FileTree(QObject *parent):
    QAbstractItemModel(parent),
    m_d(file_tree_new(this,
        [](const FileTree* o, option_quintptr id) {
            if (id.some) {
                int row = file_tree_row(o->m_d, id.value);
                Q_EMIT o->newDataReady(o->createIndex(row, 0, id.value));
            } else {
                Q_EMIT o->newDataReady(QModelIndex());
            }
        },
        [](FileTree* o) {
            Q_EMIT o->layoutAboutToBeChanged();
        },
        [](FileTree* o) {
            o->updatePersistentIndexes();
            Q_EMIT o->layoutChanged();
        },
        [](FileTree* o, quintptr first, quintptr last) {
            quintptr frow = file_tree_row(o->m_d, first);
            quintptr lrow = file_tree_row(o->m_d, last);
            o->dataChanged(o->createIndex(frow, 0, first),
                       o->createIndex(lrow, 0, last));
        },
        [](FileTree* o) {
            o->beginResetModel();
        },
        [](FileTree* o) {
            o->endResetModel();
        },
        [](FileTree* o, option_quintptr id, int first, int last) {
            if (id.some) {
                int row = file_tree_row(o->m_d, id.value);
                o->beginInsertRows(o->createIndex(row, 0, id.value), first, last);
            } else {
                o->beginInsertRows(QModelIndex(), first, last);
            }
        },
        [](FileTree* o) {
            o->endInsertRows();
        },
        [](FileTree* o, option_quintptr sourceParent, int first, int last, option_quintptr destinationParent, int destination) {
            QModelIndex s;
            if (sourceParent.some) {
                int row = file_tree_row(o->m_d, sourceParent.value);
                s = o->createIndex(row, 0, sourceParent.value);
            }
            QModelIndex d;
            if (destinationParent.some) {
                int row = file_tree_row(o->m_d, destinationParent.value);
                d = o->createIndex(row, 0, destinationParent.value);
            }
            o->beginMoveRows(s, first, last, d, destination);
        },
        [](FileTree* o) {
            o->endMoveRows();
        },
        [](FileTree* o, option_quintptr id, int first, int last) {
            if (id.some) {
                int row = file_tree_row(o->m_d, id.value);
                o->beginRemoveRows(o->createIndex(row, 0, id.value), first, last);
            } else {
                o->beginRemoveRows(QModelIndex(), first, last);
            }
        },
        [](FileTree* o) {
            o->endRemoveRows();
        }
)),
    m_ownsPrivate(true)
{
    connect(this, &FileTree::newDataReady, this, [this](const QModelIndex& i) {
        this->fetchMore(i);
    }, Qt::QueuedConnection);
    initHeaderData();
}

FileTree::~FileTree() {
    if (m_ownsPrivate) {
        file_tree_free(m_d);
    }
}
void FileTree::initHeaderData() {
    m_headerData.insert(qMakePair(0, Qt::DisplayRole), QVariant(\"fileName\"));
}
Person::Person(bool /*owned*/, QObject *parent):
    QObject(parent),
    m_d(nullptr),
    m_ownsPrivate(false)
{
}

Person::Person(QObject *parent):
    QObject(parent),
    m_d(person_new(this,
        personAgeChanged,
        personIconChanged,
        personUserNameChanged)),
    m_ownsPrivate(true)
{
}

Person::~Person() {
    if (m_ownsPrivate) {
        person_free(m_d);
    }
}
QVariant Person::age() const
{
    QVariant v;
    auto r = person_age_get(m_d);
    if (r.some) {
        v.setValue(r.value);
    }
    return r;
}
void Person::setAge(const QVariant& v) {
    if (v.isNull() || !v.canConvert<quint8>()) {
        person_age_set_none(m_d);
    } else {
        person_age_set(m_d, v.value<quint8>());
    }
}
QByteArray Person::icon() const
{
    QByteArray v;
    person_icon_get(m_d, &v, set_qbytearray);
    return v;
}
QString Person::userName() const
{
    QString v;
    person_user_name_get(m_d, &v, set_qstring);
    return v;
}
void Person::setUserName(const QString& v) {
    person_user_name_set(m_d, reinterpret_cast<const ushort*>(v.data()), v.size());
}
QString Person::greetAll(const QString& name, quint8 times) const
{
    QString s;
    person_greet_all(m_d, name.utf16(), name.size(), times, &s, set_qstring);
    return s;
}
Persons::Persons(bool /*owned*/, QObject *parent):
    QAbstractItemModel(parent),
    m_active(new Person(false, this)),
    m_d(nullptr),
    m_ownsPrivate(false)
{
    initHeaderData();
}

Persons::Persons(QObject *parent):
    QAbstractItemModel(parent),
    m_active(new Person(false, this)),
    m_d(persons_new(this, m_active,
        personAgeChanged,
        personIconChanged,
        personUserNameChanged,
        [](const Persons* o) {
            Q_EMIT o->newDataReady(QModelIndex());
        },
        [](Persons* o) {
            Q_EMIT o->layoutAboutToBeChanged();
        },
        [](Persons* o) {
            o->updatePersistentIndexes();
            Q_EMIT o->layoutChanged();
        },
        [](Persons* o, quintptr first, quintptr last) {
            o->dataChanged(o->createIndex(first, 0, first),
                       o->createIndex(last, 1, last));
        },
        [](Persons* o) {
            o->beginResetModel();
        },
        [](Persons* o) {
            o->endResetModel();
        },
        [](Persons* o, int first, int last) {
            o->beginInsertRows(QModelIndex(), first, last);
        },
        [](Persons* o) {
            o->endInsertRows();
        },
        [](Persons* o, int first, int last, int destination) {
            o->beginMoveRows(QModelIndex(), first, last, QModelIndex(), destination);
        },
        [](Persons* o) {
            o->endMoveRows();
        },
        [](Persons* o, int first, int last) {
            o->beginRemoveRows(QModelIndex(), first, last);
        },
        [](Persons* o) {
            o->endRemoveRows();
        }
)),
    m_ownsPrivate(true)
{
    m_active->m_d = persons_active_get(m_d);
    connect(this, &Persons::newDataReady, this, [this](const QModelIndex& i) {
        this->fetchMore(i);
    }, Qt::QueuedConnection);
    initHeaderData();
}

Persons::~Persons() {
    if (m_ownsPrivate) {
        persons_free(m_d);
    }
}
void Persons::initHeaderData() {
    m_headerData.insert(qMakePair(0, Qt::DisplayRole), QVariant(\"userName\"));
    m_headerData.insert(qMakePair(1, Qt::DisplayRole), QVariant(\"age\"));
}
const Person* Persons::active() const
{
    return m_active;
}
Person* Persons::active()
{
    return m_active;
}
extern \"C\" {
    void qmetaobject__invokeMethod__0(QObject *obj, const char *member) {
        QMetaObject::invokeMethod(obj, member);
    }
}
";

const INTERFACE: &str = "/* generated by rust_qt_binding_generator */
use libc::{c_char, c_ushort, c_int};
use std::slice;
use std::char::decode_utf16;

use std::sync::Arc;
use std::sync::atomic::{AtomicPtr, Ordering};
use std::ptr::null;

use crate::implementation::*;


#[repr(C)]
pub struct COption<T> {
    data: T,
    some: bool,
}

impl<T> COption<T> {
    #![allow(dead_code)]
    fn into(self) -> Option<T> {
        if self.some {
            Some(self.data)
        } else {
            None
        }
    }
}

impl<T> From<Option<T>> for COption<T>
where
    T: Default,
{
    fn from(t: Option<T>) -> COption<T> {
        if let Some(v) = t {
            COption {
                data: v,
                some: true,
            }
        } else {
            COption {
                data: T::default(),
                some: false,
            }
        }
    }
}


pub enum QString {}

fn set_string_from_utf16(s: &mut String, str: *const c_ushort, len: c_int) {
    let utf16 = unsafe { slice::from_raw_parts(str, to_usize(len)) };
    let characters = decode_utf16(utf16.iter().cloned())
        .map(|r| r.unwrap());
    s.clear();
    s.extend(characters);
}



pub enum QByteArray {}


#[repr(C)]
#[derive(PartialEq, Eq, Debug)]
pub enum SortOrder {
    Ascending = 0,
    Descending = 1,
}

#[repr(C)]
pub struct QModelIndex {
    row: c_int,
    internal_id: usize,
}


fn to_usize(n: c_int) -> usize {
    if n < 0 {
        panic!(\"Cannot cast {} to usize\", n);
    }
    n as usize
}


fn to_c_int(n: usize) -> c_int {
    if n > c_int::max_value() as usize {
        panic!(\"Cannot cast {} to c_int\", n);
    }
    n as c_int
}


pub struct FileTreeQObject {}

pub struct FileTreeEmitter {
    qobject: Arc<AtomicPtr<FileTreeQObject>>,
    new_data_ready: fn(*mut FileTreeQObject, index: COption<usize>),
}

unsafe impl Send for FileTreeEmitter {}

impl FileTreeEmitter {
    /// Clone the emitter
    ///
    /// The emitter can only be cloned when it is mutable. The emitter calls
    /// into C++ code which may call into Rust again. If emmitting is possible
    /// from immutable structures, that might lead to access to a mutable
    /// reference. That is undefined behaviour and forbidden.
    pub fn clone(&mut self) -> FileTreeEmitter {
        FileTreeEmitter {
            qobject: self.qobject.clone(),
            new_data_ready: self.new_data_ready,
        }
    }
    fn clear(&self) {
        let n: *const FileTreeQObject = null();
        self.qobject.store(n as *mut FileTreeQObject, Ordering::SeqCst);
    }
    pub fn new_data_ready(&mut self, item: Option<usize>) {
        let ptr = self.qobject.load(Ordering::SeqCst);
        if !ptr.is_null() {
            (self.new_data_ready)(ptr, item.into());
        }
    }
}

#[derive(Clone)]
pub struct FileTreeTree {
    qobject: *mut FileTreeQObject,
    layout_about_to_be_changed: fn(*mut FileTreeQObject),
    layout_changed: fn(*mut FileTreeQObject),
    data_changed: fn(*mut FileTreeQObject, usize, usize),
    begin_reset_model: fn(*mut FileTreeQObject),
    end_reset_model: fn(*mut FileTreeQObject),
    begin_insert_rows: fn(*mut FileTreeQObject, index: COption<usize>, usize, usize),
    end_insert_rows: fn(*mut FileTreeQObject),
    begin_move_rows: fn(*mut FileTreeQObject, index: COption<usize>, usize, usize, dest: COption<usize>, usize),
    end_move_rows: fn(*mut FileTreeQObject),
    begin_remove_rows: fn(*mut FileTreeQObject, index: COption<usize>, usize, usize),
    end_remove_rows: fn(*mut FileTreeQObject),
}

impl FileTreeTree {
    pub fn layout_about_to_be_changed(&mut self) {
        (self.layout_about_to_be_changed)(self.qobject);
    }
    pub fn layout_changed(&mut self) {
        (self.layout_changed)(self.qobject);
    }
    pub fn data_changed(&mut self, first: usize, last: usize) {
        (self.data_changed)(self.qobject, first, last);
    }
    pub fn begin_reset_model(&mut self) {
        (self.begin_reset_model)(self.qobject);
    }
    pub fn end_reset_model(&mut self) {
        (self.end_reset_model)(self.qobject);
    }
    pub fn begin_insert_rows(&mut self, index: Option<usize>, first: usize, last: usize) {
        (self.begin_insert_rows)(self.qobject, index.into(), first, last);
    }
    pub fn end_insert_rows(&mut self) {
        (self.end_insert_rows)(self.qobject);
    }
    pub fn begin_move_rows(&mut self, index: Option<usize>, first: usize, last: usize, dest: Option<usize>, destination: usize) {
        (self.begin_move_rows)(self.qobject, index.into(), first, last, dest.into(), destination);
    }
    pub fn end_move_rows(&mut self) {
        (self.end_move_rows)(self.qobject);
    }
    pub fn begin_remove_rows(&mut self, index: Option<usize>, first: usize, last: usize) {
        (self.begin_remove_rows)(self.qobject, index.into(), first, last);
    }
    pub fn end_remove_rows(&mut self) {
        (self.end_remove_rows)(self.qobject);
    }
}

pub trait FileTreeTrait {
    fn new(emit: FileTreeEmitter, model: FileTreeTree) -> Self;
    fn emit(&mut self) -> &mut FileTreeEmitter;
    fn row_count(&self, _: Option<usize>) -> usize;
    fn can_fetch_more(&self, _: Option<usize>) -> bool {
        false
    }
    fn fetch_more(&mut self, _: Option<usize>) {}
    fn sort(&mut self, _: u8, _: SortOrder) {}
    fn check_row(&self, index: usize, row: usize) -> Option<usize>;
    fn index(&self, item: Option<usize>, row: usize) -> usize;
    fn parent(&self, index: usize) -> Option<usize>;
    fn row(&self, index: usize) -> usize;
    fn file_name(&self, index: usize) -> &str;
}

#[no_mangle]
pub extern \"C\" fn file_tree_new(
    file_tree: *mut FileTreeQObject,
    file_tree_new_data_ready: fn(*mut FileTreeQObject, index: COption<usize>),
    file_tree_layout_about_to_be_changed: fn(*mut FileTreeQObject),
    file_tree_layout_changed: fn(*mut FileTreeQObject),
    file_tree_data_changed: fn(*mut FileTreeQObject, usize, usize),
    file_tree_begin_reset_model: fn(*mut FileTreeQObject),
    file_tree_end_reset_model: fn(*mut FileTreeQObject),
    file_tree_begin_insert_rows: fn(*mut FileTreeQObject, index: COption<usize>, usize, usize),
    file_tree_end_insert_rows: fn(*mut FileTreeQObject),
    file_tree_begin_move_rows: fn(*mut FileTreeQObject, index: COption<usize>, usize, usize, index: COption<usize>, usize),
    file_tree_end_move_rows: fn(*mut FileTreeQObject),
    file_tree_begin_remove_rows: fn(*mut FileTreeQObject, index: COption<usize>, usize, usize),
    file_tree_end_remove_rows: fn(*mut FileTreeQObject),
) -> *mut FileTree {
    let file_tree_emit = FileTreeEmitter {
        qobject: Arc::new(AtomicPtr::new(file_tree)),
        new_data_ready: file_tree_new_data_ready,
    };
    let model = FileTreeTree {
        qobject: file_tree,
        layout_about_to_be_changed: file_tree_layout_about_to_be_changed,
        layout_changed: file_tree_layout_changed,
        data_changed: file_tree_data_changed,
        begin_reset_model: file_tree_begin_reset_model,
        end_reset_model: file_tree_end_reset_model,
        begin_insert_rows: file_tree_begin_insert_rows,
        end_insert_rows: file_tree_end_insert_rows,
        begin_move_rows: file_tree_begin_move_rows,
        end_move_rows: file_tree_end_move_rows,
        begin_remove_rows: file_tree_begin_remove_rows,
        end_remove_rows: file_tree_end_remove_rows,
    };
    let d_file_tree = FileTree::new(file_tree_emit, model);
    Box::into_raw(Box::new(d_file_tree))
}

#[no_mangle]
pub unsafe extern \"C\" fn file_tree_free(ptr: *mut FileTree) {
    Box::from_raw(ptr).emit().clear();
}

#[no_mangle]
pub unsafe extern \"C\" fn file_tree_row_count(
    ptr: *const FileTree,
    index: COption<usize>,
) -> c_int {
    to_c_int((&*ptr).row_count(index.into()))
}
#[no_mangle]
pub unsafe extern \"C\" fn file_tree_can_fetch_more(
    ptr: *const FileTree,
    index: COption<usize>,
) -> bool {
    (&*ptr).can_fetch_more(index.into())
}
#[no_mangle]
pub unsafe extern \"C\" fn file_tree_fetch_more(ptr: *mut FileTree, index: COption<usize>) {
    (&mut *ptr).fetch_more(index.into())
}
#[no_mangle]
pub unsafe extern \"C\" fn file_tree_sort(
    ptr: *mut FileTree,
    column: u8,
    order: SortOrder
) {
    (&mut *ptr).sort(column, order)
}
#[no_mangle]
pub unsafe extern \"C\" fn file_tree_check_row(
    ptr: *const FileTree,
    index: usize,
    row: c_int,
) -> COption<usize> {
    (&*ptr).check_row(index, to_usize(row)).into()
}
#[no_mangle]
pub unsafe extern \"C\" fn file_tree_index(
    ptr: *const FileTree,
    index: COption<usize>,
    row: c_int,
) -> usize {
    (&*ptr).index(index.into(), to_usize(row))
}
#[no_mangle]
pub unsafe extern \"C\" fn file_tree_parent(ptr: *const FileTree, index: usize) -> QModelIndex {
    if let Some(parent) = (&*ptr).parent(index) {
        QModelIndex {
            row: to_c_int((&*ptr).row(parent)),
            internal_id: parent,
        }
    } else {
        QModelIndex {
            row: -1,
            internal_id: 0,
        }
    }
}
#[no_mangle]
pub unsafe extern \"C\" fn file_tree_row(ptr: *const FileTree, index: usize) -> c_int {
    to_c_int((&*ptr).row(index))
}

#[no_mangle]
pub unsafe extern \"C\" fn file_tree_data_file_name(
    ptr: *const FileTree, index: usize,
    d: *mut QString,
    set: fn(*mut QString, *const c_char, len: c_int),
) {
    let o = &*ptr;
    let data = o.file_name(index);
    let s: *const c_char = data.as_ptr() as (*const c_char);
    set(d, s, to_c_int(data.len()));
}

pub struct PersonQObject {}

pub struct PersonEmitter {
    qobject: Arc<AtomicPtr<PersonQObject>>,
    age_changed: fn(*mut PersonQObject),
    icon_changed: fn(*mut PersonQObject),
    user_name_changed: fn(*mut PersonQObject),
}

unsafe impl Send for PersonEmitter {}

impl PersonEmitter {
    /// Clone the emitter
    ///
    /// The emitter can only be cloned when it is mutable. The emitter calls
    /// into C++ code which may call into Rust again. If emmitting is possible
    /// from immutable structures, that might lead to access to a mutable
    /// reference. That is undefined behaviour and forbidden.
    pub fn clone(&mut self) -> PersonEmitter {
        PersonEmitter {
            qobject: self.qobject.clone(),
            age_changed: self.age_changed,
            icon_changed: self.icon_changed,
            user_name_changed: self.user_name_changed,
        }
    }
    fn clear(&self) {
        let n: *const PersonQObject = null();
        self.qobject.store(n as *mut PersonQObject, Ordering::SeqCst);
    }
    pub fn age_changed(&mut self) {
        let ptr = self.qobject.load(Ordering::SeqCst);
        if !ptr.is_null() {
            (self.age_changed)(ptr);
        }
    }
    pub fn icon_changed(&mut self) {
        let ptr = self.qobject.load(Ordering::SeqCst);
        if !ptr.is_null() {
            (self.icon_changed)(ptr);
        }
    }
    pub fn user_name_changed(&mut self) {
        let ptr = self.qobject.load(Ordering::SeqCst);
        if !ptr.is_null() {
            (self.user_name_changed)(ptr);
        }
    }
}

pub trait PersonTrait {
    fn new(emit: PersonEmitter) -> Self;
    fn emit(&mut self) -> &mut PersonEmitter;
    fn age(&self) -> Option<u8>;
    fn set_age(&mut self, value: Option<u8>);
    fn icon(&self) -> &[u8];
    fn user_name(&self) -> &str;
    fn set_user_name(&mut self, value: String);
    fn greet_all(&self, name: String, times: u8) -> String;
}

#[no_mangle]
pub extern \"C\" fn person_new(
    person: *mut PersonQObject,
    person_age_changed: fn(*mut PersonQObject),
    person_icon_changed: fn(*mut PersonQObject),
    person_user_name_changed: fn(*mut PersonQObject),
) -> *mut Person {
    let person_emit = PersonEmitter {
        qobject: Arc::new(AtomicPtr::new(person)),
        age_changed: person_age_changed,
        icon_changed: person_icon_changed,
        user_name_changed: person_user_name_changed,
    };
    let d_person = Person::new(person_emit);
    Box::into_raw(Box::new(d_person))
}

#[no_mangle]
pub unsafe extern \"C\" fn person_free(ptr: *mut Person) {
    Box::from_raw(ptr).emit().clear();
}

#[no_mangle]
pub unsafe extern \"C\" fn person_age_get(ptr: *const Person) -> COption<u8> {
    match (&*ptr).age() {
        Some(value) => COption { data: value, some: true },
        None => COption { data: u8::default(), some: false}
    }
}

#[no_mangle]
pub unsafe extern \"C\" fn person_age_set(ptr: *mut Person, v: u8) {
    (&mut *ptr).set_age(Some(v));
}

#[no_mangle]
pub unsafe extern \"C\" fn person_age_set_none(ptr: *mut Person) {
    let o = &mut *ptr;
    o.set_age(None);
}

#[no_mangle]
pub unsafe extern \"C\" fn person_icon_get(
    ptr: *const Person,
    p: *mut QByteArray,
    set: fn(*mut QByteArray, *const c_char, c_int),
) {
    let o = &*ptr;
    let v = o.icon();
    let s: *const c_char = v.as_ptr() as (*const c_char);
    set(p, s, to_c_int(v.len()));
}

#[no_mangle]
pub unsafe extern \"C\" fn person_user_name_get(
    ptr: *const Person,
    p: *mut QString,
    set: fn(*mut QString, *const c_char, c_int),
) {
    let o = &*ptr;
    let v = o.user_name();
    let s: *const c_char = v.as_ptr() as (*const c_char);
    set(p, s, to_c_int(v.len()));
}

#[no_mangle]
pub unsafe extern \"C\" fn person_user_name_set(ptr: *mut Person, v: *const c_ushort, len: c_int) {
    let o = &mut *ptr;
    let mut s = String::new();
    set_string_from_utf16(&mut s, v, len);
    o.set_user_name(s);
}

#[no_mangle]
pub unsafe extern \"C\" fn person_greet_all(ptr: *const Person, name_str: *const c_ushort, name_len: c_int, times: u8, d: *mut QString, set: fn(*mut QString, str: *const c_char, len: c_int)) {
    let mut name = String::new();
    set_string_from_utf16(&mut name, name_str, name_len);
    let o = &*ptr;
    let r = o.greet_all(name, times);
    let s: *const c_char = r.as_ptr() as (*const c_char);
    set(d, s, r.len() as i32);
}

pub struct PersonsQObject {}

pub struct PersonsEmitter {
    qobject: Arc<AtomicPtr<PersonsQObject>>,
    new_data_ready: fn(*mut PersonsQObject),
}

unsafe impl Send for PersonsEmitter {}

impl PersonsEmitter {
    /// Clone the emitter
    ///
    /// The emitter can only be cloned when it is mutable. The emitter calls
    /// into C++ code which may call into Rust again. If emmitting is possible
    /// from immutable structures, that might lead to access to a mutable
    /// reference. That is undefined behaviour and forbidden.
    pub fn clone(&mut self) -> PersonsEmitter {
        PersonsEmitter {
            qobject: self.qobject.clone(),
            new_data_ready: self.new_data_ready,
        }
    }
    fn clear(&self) {
        let n: *const PersonsQObject = null();
        self.qobject.store(n as *mut PersonsQObject, Ordering::SeqCst);
    }
    pub fn new_data_ready(&mut self) {
        let ptr = self.qobject.load(Ordering::SeqCst);
        if !ptr.is_null() {
            (self.new_data_ready)(ptr);
        }
    }
}

#[derive(Clone)]
pub struct PersonsList {
    qobject: *mut PersonsQObject,
    layout_about_to_be_changed: fn(*mut PersonsQObject),
    layout_changed: fn(*mut PersonsQObject),
    data_changed: fn(*mut PersonsQObject, usize, usize),
    begin_reset_model: fn(*mut PersonsQObject),
    end_reset_model: fn(*mut PersonsQObject),
    begin_insert_rows: fn(*mut PersonsQObject, usize, usize),
    end_insert_rows: fn(*mut PersonsQObject),
    begin_move_rows: fn(*mut PersonsQObject, usize, usize, usize),
    end_move_rows: fn(*mut PersonsQObject),
    begin_remove_rows: fn(*mut PersonsQObject, usize, usize),
    end_remove_rows: fn(*mut PersonsQObject),
}

impl PersonsList {
    pub fn layout_about_to_be_changed(&mut self) {
        (self.layout_about_to_be_changed)(self.qobject);
    }
    pub fn layout_changed(&mut self) {
        (self.layout_changed)(self.qobject);
    }
    pub fn data_changed(&mut self, first: usize, last: usize) {
        (self.data_changed)(self.qobject, first, last);
    }
    pub fn begin_reset_model(&mut self) {
        (self.begin_reset_model)(self.qobject);
    }
    pub fn end_reset_model(&mut self) {
        (self.end_reset_model)(self.qobject);
    }
    pub fn begin_insert_rows(&mut self, first: usize, last: usize) {
        (self.begin_insert_rows)(self.qobject, first, last);
    }
    pub fn end_insert_rows(&mut self) {
        (self.end_insert_rows)(self.qobject);
    }
    pub fn begin_move_rows(&mut self, first: usize, last: usize, destination: usize) {
        (self.begin_move_rows)(self.qobject, first, last, destination);
    }
    pub fn end_move_rows(&mut self) {
        (self.end_move_rows)(self.qobject);
    }
    pub fn begin_remove_rows(&mut self, first: usize, last: usize) {
        (self.begin_remove_rows)(self.qobject, first, last);
    }
    pub fn end_remove_rows(&mut self) {
        (self.end_remove_rows)(self.qobject);
    }
}

pub trait PersonsTrait {
    fn new(emit: PersonsEmitter, model: PersonsList,
        active: Person) -> Self;
    fn emit(&mut self) -> &mut PersonsEmitter;
    fn active(&self) -> &Person;
    fn active_mut(&mut self) -> &mut Person;
    fn row_count(&self) -> usize;
    fn insert_rows(&mut self, _row: usize, _count: usize) -> bool { false }
    fn remove_rows(&mut self, _row: usize, _count: usize) -> bool { false }
    fn can_fetch_more(&self) -> bool {
        false
    }
    fn fetch_more(&mut self) {}
    fn sort(&mut self, _: u8, _: SortOrder) {}
    fn age(&self, index: usize) -> Option<u8>;
    fn set_age(&mut self, index: usize, _: Option<u8>) -> bool;
    fn user_name(&self, index: usize) -> &str;
    fn set_user_name(&mut self, index: usize, _: String) -> bool;
}

#[no_mangle]
pub extern \"C\" fn persons_new(
    persons: *mut PersonsQObject,
    active: *mut PersonQObject,
    active_age_changed: fn(*mut PersonQObject),
    active_icon_changed: fn(*mut PersonQObject),
    active_user_name_changed: fn(*mut PersonQObject),
    persons_new_data_ready: fn(*mut PersonsQObject),
    persons_layout_about_to_be_changed: fn(*mut PersonsQObject),
    persons_layout_changed: fn(*mut PersonsQObject),
    persons_data_changed: fn(*mut PersonsQObject, usize, usize),
    persons_begin_reset_model: fn(*mut PersonsQObject),
    persons_end_reset_model: fn(*mut PersonsQObject),
    persons_begin_insert_rows: fn(*mut PersonsQObject, usize, usize),
    persons_end_insert_rows: fn(*mut PersonsQObject),
    persons_begin_move_rows: fn(*mut PersonsQObject, usize, usize, usize),
    persons_end_move_rows: fn(*mut PersonsQObject),
    persons_begin_remove_rows: fn(*mut PersonsQObject, usize, usize),
    persons_end_remove_rows: fn(*mut PersonsQObject),
) -> *mut Persons {
    let active_emit = PersonEmitter {
        qobject: Arc::new(AtomicPtr::new(active)),
        age_changed: active_age_changed,
        icon_changed: active_icon_changed,
        user_name_changed: active_user_name_changed,
    };
    let d_active = Person::new(active_emit);
    let persons_emit = PersonsEmitter {
        qobject: Arc::new(AtomicPtr::new(persons)),
        new_data_ready: persons_new_data_ready,
    };
    let model = PersonsList {
        qobject: persons,
        layout_about_to_be_changed: persons_layout_about_to_be_changed,
        layout_changed: persons_layout_changed,
        data_changed: persons_data_changed,
        begin_reset_model: persons_begin_reset_model,
        end_reset_model: persons_end_reset_model,
        begin_insert_rows: persons_begin_insert_rows,
        end_insert_rows: persons_end_insert_rows,
        begin_move_rows: persons_begin_move_rows,
        end_move_rows: persons_end_move_rows,
        begin_remove_rows: persons_begin_remove_rows,
        end_remove_rows: persons_end_remove_rows,
    };
    let d_persons = Persons::new(persons_emit, model,
        d_active);
    Box::into_raw(Box::new(d_persons))
}

#[no_mangle]
pub unsafe extern \"C\" fn persons_free(ptr: *mut Persons) {
    Box::from_raw(ptr).emit().clear();
}

#[no_mangle]
pub unsafe extern \"C\" fn persons_active_get(ptr: *mut Persons) -> *mut Person {
    (&mut *ptr).active_mut()
}

#[no_mangle]
pub unsafe extern \"C\" fn persons_row_count(ptr: *const Persons) -> c_int {
    to_c_int((&*ptr).row_count())
}
#[no_mangle]
pub unsafe extern \"C\" fn persons_insert_rows(ptr: *mut Persons, row: c_int, count: c_int) -> bool {
    (&mut *ptr).insert_rows(to_usize(row), to_usize(count))
}
#[no_mangle]
pub unsafe extern \"C\" fn persons_remove_rows(ptr: *mut Persons, row: c_int, count: c_int) -> bool {
    (&mut *ptr).remove_rows(to_usize(row), to_usize(count))
}
#[no_mangle]
pub unsafe extern \"C\" fn persons_can_fetch_more(ptr: *const Persons) -> bool {
    (&*ptr).can_fetch_more()
}
#[no_mangle]
pub unsafe extern \"C\" fn persons_fetch_more(ptr: *mut Persons) {
    (&mut *ptr).fetch_more()
}
#[no_mangle]
pub unsafe extern \"C\" fn persons_sort(
    ptr: *mut Persons,
    column: u8,
    order: SortOrder,
) {
    (&mut *ptr).sort(column, order)
}

#[no_mangle]
pub unsafe extern \"C\" fn persons_data_age(ptr: *const Persons, row: c_int) -> COption<u8> {
    let o = &*ptr;
    o.age(to_usize(row)).into()
}

#[no_mangle]
pub unsafe extern \"C\" fn persons_set_data_age(
    ptr: *mut Persons, row: c_int,
    v: u8,
) -> bool {
    (&mut *ptr).set_age(to_usize(row), Some(v))
}

#[no_mangle]
pub unsafe extern \"C\" fn persons_set_data_age_none(ptr: *mut Persons, row: c_int) -> bool {
    (&mut *ptr).set_age(to_usize(row), None)
}

#[no_mangle]
pub unsafe extern \"C\" fn persons_data_user_name(
    ptr: *const Persons, row: c_int,
    d: *mut QString,
    set: fn(*mut QString, *const c_char, len: c_int),
) {
    let o = &*ptr;
    let data = o.user_name(to_usize(row));
    let s: *const c_char = data.as_ptr() as (*const c_char);
    set(d, s, to_c_int(data.len()));
}

#[no_mangle]
pub unsafe extern \"C\" fn persons_set_data_user_name(
    ptr: *mut Persons, row: c_int,
    s: *const c_ushort, len: c_int,
) -> bool {
    let o = &mut *ptr;
    let mut v = String::new();
    set_string_from_utf16(&mut v, s, len);
    o.set_user_name(to_usize(row), v)
}
";

const IMPLEMENTATION: &str = "#![allow(unused_imports)]
#![allow(unused_variables)]
#![allow(dead_code)]
use crate::interface::*;

#[derive(Default, Clone)]
struct FileTreeItem {
    file_name: String,
}

pub struct FileTree {
    emit: FileTreeEmitter,
    model: FileTreeTree,
    list: Vec<FileTreeItem>,
}

impl FileTreeTrait for FileTree {
    fn new(emit: FileTreeEmitter, model: FileTreeTree) -> FileTree {
        FileTree {
            emit,
            model,
            list: Vec::new(),
        }
    }
    fn emit(&mut self) -> &mut FileTreeEmitter {
        &self.emit
    }
    fn row_count(&self, item: Option<usize>) -> usize {
        self.list.len()
    }
    fn index(&self, item: Option<usize>, row: usize) -> usize {
        0
    }
    fn parent(&self, index: usize) -> Option<usize> {
        None
    }
    fn row(&self, index: usize) -> usize {
        index
    }
    fn check_row(&self, index: usize, _row: usize) -> Option<usize> {
        if index < self.list.len() {
            Some(index)
        } else {
            None
        }
    }
    fn file_name(&self, index: usize) -> &str {
        &self.list[index].file_name
    }
}
pub struct Person {
    emit: PersonEmitter,
    age: Option<u8>,
    icon: Vec<u8>,
    user_name: String,
}

impl PersonTrait for Person {
    fn new(emit: PersonEmitter) -> Person {
        Person {
            emit,
            age: None,
            icon: Vec::new(),
            user_name: String::new(),
        }
    }
    fn emit(&mut self) -> &mut PersonEmitter {
        &self.emit
    }
    fn age(&self) -> Option<u8> {
        self.age
    }
    fn set_age(&mut self, value: Option<u8>) {
        self.age = value;
        self.emit.age_changed();
    }
    fn icon(&self) -> &[u8] {
        &self.icon
    }
    fn user_name(&self) -> &str {
        &self.user_name
    }
    fn set_user_name(&mut self, value: String) {
        self.user_name = value;
        self.emit.user_name_changed();
    }
}
#[derive(Default, Clone)]
struct PersonsItem {
    age: Option<u8>,
    user_name: String,
}

pub struct Persons {
    emit: PersonsEmitter,
    model: PersonsList,
    active: Person,
    list: Vec<PersonsItem>,
}

impl PersonsTrait for Persons {
    fn new(emit: PersonsEmitter, model: PersonsList, active: Person) -> Persons {
        Persons {
            emit,
            model,
            list: Vec::new(),
            active,
        }
    }
    fn emit(&mut self) -> &mut PersonsEmitter {
        &self.emit
    }
    fn active(&self) -> &Person {
        &self.active
    }
    fn active_mut(&mut self) -> &mut Person {
        &mut self.active
    }
    fn row_count(&self) -> usize {
        self.list.len()
    }
    fn age(&self, index: usize) -> Option<u8> {
        self.list[index].age
    }
    fn set_age(&mut self, index: usize, v: Option<u8>) -> bool {
        self.list[index].age = v;
        true
    }
    fn user_name(&self, index: usize) -> &str {
        &self.list[index].user_name
    }
    fn set_user_name(&mut self, index: usize, v: String) -> bool {
        self.list[index].user_name = v;
        true
    }
}
";
